//! The frame loop's decisions: what an event leads to, what a frame's
//! render pass records, and how a failed frame is answered.
//!
//! Nothing here touches a device. The caller performs each action and
//! reports back what came of it.

use vstd::prelude::*;
use crate::camera::{
    spec_full_write, spec_sync, BufferWrite, CameraController, CameraError, CameraState,
    CameraUpdate, Sight,
};
use crate::input::{ElementState, Event, Key, WindowEvent};
use crate::instance::State;

verus! {

/// Width and height of the presentation target.
#[derive(Clone, Copy, Debug, PartialEq, Eq, Structural)]
pub struct Size {
    pub width: u32,
    pub height: u32,
}

/// Why no frame could be acquired.
#[derive(Clone, Copy, Debug, PartialEq, Eq, Structural)]
pub enum SwapChainError {
    /// No frame came in time.
    Timeout,
    /// The target no longer fits the surface.
    Outdated,
    /// The target is lost and must be made anew.
    Lost,
    /// No memory is left for a frame.
    OutOfMemory,
}

/// Why a frame was not drawn.
#[derive(Clone, Copy, Debug, PartialEq, Eq, Structural)]
pub enum FrameError {
    Camera(CameraError),
    Surface(SwapChainError),
}

/// What the caller is to do next.
#[derive(Clone, Copy, Debug, PartialEq, Eq, Structural)]
pub enum Action {
    /// Nothing.
    Idle,
    /// Leave the frame loop.
    Exit,
    /// Make the presentation target anew at this size, then bring the
    /// camera up to date.
    Resize(Size),
    /// Run a tick and draw a frame.
    Redraw,
    /// Ask the window for another redraw.
    RequestRedraw,
    /// Report the failure, skip the frame and go on.
    Report(FrameError),
}

/// The bind groups of the render pass.
#[derive(Clone, Copy, Debug, PartialEq, Eq, Structural)]
pub enum BindGroup {
    Material,
    Camera,
}

/// The vertex buffers of the render pass.
#[derive(Clone, Copy, Debug, PartialEq, Eq, Structural)]
pub enum VertexBuffer {
    Mesh,
    Instances,
}

/// The width of an index.
#[derive(Clone, Copy, Debug, PartialEq, Eq, Structural)]
pub enum IndexFormat {
    Uint16,
}

/// One command of the render pass. Buffers are bound whole.
#[derive(Clone, Copy, Debug, PartialEq, Eq, Structural)]
pub enum DrawCommand {
    SetPipeline,
    SetBindGroup { slot: u32, group: BindGroup },
    SetVertexBuffer { slot: u32, buffer: VertexBuffer },
    SetIndexBuffer { format: IndexFormat },
    /// Draws the indices `first_index..end_index` once for each instance
    /// of `first_instance..end_instance`.
    DrawIndexed {
        first_index: u32,
        end_index: u32,
        base_vertex: i32,
        first_instance: u32,
        end_instance: u32,
    },
}

/// The render pass of a frame: the pipeline, the material at slot 0 and the
/// camera at slot 1, the mesh at slot 0 and the instances at slot 1, the
/// indices, and one draw of every index for every instance.
pub open spec fn spec_render_pass(num_indices: u32, num_instances: u32) -> Seq<DrawCommand> {
    seq![
        DrawCommand::SetPipeline,
        DrawCommand::SetBindGroup { slot: 0, group: BindGroup::Material },
        DrawCommand::SetBindGroup { slot: 1, group: BindGroup::Camera },
        DrawCommand::SetVertexBuffer { slot: 0, buffer: VertexBuffer::Mesh },
        DrawCommand::SetVertexBuffer { slot: 1, buffer: VertexBuffer::Instances },
        DrawCommand::SetIndexBuffer { format: IndexFormat::Uint16 },
        DrawCommand::DrawIndexed {
            first_index: 0,
            end_index: num_indices,
            base_vertex: 0,
            first_instance: 0,
            end_instance: num_instances,
        },
    ]
}

/// A render pass ends in its one draw, which covers every index and every
/// instance from the first on.
pub proof fn lemma_one_draw(num_indices: u32, num_instances: u32)
    ensures
        spec_render_pass(num_indices, num_instances).len() == 7,
        forall|i: int|
            0 <= i < 6 ==> !(#[trigger] spec_render_pass(num_indices, num_instances)[i]
                is DrawIndexed),
        spec_render_pass(num_indices, num_instances)[6] == (DrawCommand::DrawIndexed {
            first_index: 0,
            end_index: num_indices,
            base_vertex: 0,
            first_instance: 0,
            end_instance: num_instances,
        }),
{
}

/// What a window event leads to once the camera has let it pass: a close
/// request or a press of Escape ends the loop, a new size that is not
/// empty is taken over, all else is ignored.
pub open spec fn spec_window_action(event: WindowEvent) -> Action {
    match event {
        WindowEvent::CloseRequested => Action::Exit,
        WindowEvent::KeyboardInput { state: ElementState::Pressed, key: Some(Key::Escape) } => {
            Action::Exit
        },
        WindowEvent::Resized { width, height }
        | WindowEvent::ScaleFactorChanged { width, height } => {
            if width != 0 && height != 0 {
                Action::Resize(Size { width, height })
            } else {
                Action::Idle
            }
        },
        _ => Action::Idle,
    }
}

/// What an event leads to. A movement key's event goes to the camera and
/// no further.
pub open spec fn spec_action(event: Event) -> Action {
    match event {
        Event::Window(e) => {
            if CameraController::spec_event_command(e).is_some() {
                Action::Idle
            } else {
                spec_window_action(e)
            }
        },
        Event::RedrawRequested => Action::Redraw,
        Event::MainEventsCleared => Action::RequestRedraw,
        Event::Other => Action::Idle,
    }
}

/// The controller after an event of the loop.
pub open spec fn spec_controller_after(controller: CameraController, event: Event)
    -> CameraController {
    match event {
        Event::Window(e) => controller.spec_after(e),
        _ => controller,
    }
}

/// How a frame's outcome is answered: a lost target is made anew at the
/// size last known, want of memory ends the loop, any other failure is
/// reported and the frame skipped.
pub open spec fn spec_after_frame(size: Size, outcome: Result<(), FrameError>) -> Action {
    match outcome {
        Ok(()) => Action::Idle,
        Err(FrameError::Surface(SwapChainError::Lost)) => Action::Resize(size),
        Err(FrameError::Surface(SwapChainError::OutOfMemory)) => Action::Exit,
        Err(e) => Action::Report(e),
    }
}

/// An event that the camera takes leads to nothing else: a movement key
/// neither ends the loop nor resizes the target.
pub proof fn lemma_camera_takes_movement_keys(event: WindowEvent)
    requires
        CameraController::spec_event_command(event).is_some(),
    ensures
        spec_action(Event::Window(event)) == Action::Idle,
{
}

/// No event and no outcome of a frame asks for an empty target.
pub proof fn lemma_resize_never_empty(size: Size, event: Event, outcome: Result<(), FrameError>)
    requires
        size.width != 0,
        size.height != 0,
    ensures
        spec_action(event) matches Action::Resize(s) ==> s.width != 0 && s.height != 0,
        spec_after_frame(size, outcome) matches Action::Resize(s) ==> s == size,
{
}

/// The scene's state between frames.
pub struct FrameRenderer<G> {
    pub size: Size,
    pub camera_state: CameraState<G>,
    pub instance_state: State,
    pub num_indices: u32,
}

impl<G> FrameRenderer<G> {
    /// The instances are a grid, the target is not empty, and the camera's
    /// aspect ratio is the target's.
    pub open spec fn wf(&self) -> bool {
        &&& self.instance_state.wf()
        &&& self.size.width != 0
        &&& self.size.height != 0
        &&& self.camera_state.camera_desc.width == self.size.width
        &&& self.camera_state.camera_desc.height == self.size.height
    }

    /// A renderer for a target of `width` by `height`, drawing a mesh of
    /// `num_indices` indices once for each instance.
    pub fn new(
        geometry: G,
        width: u32,
        height: u32,
        instance_state: State,
        num_indices: u32,
    ) -> (renderer: Self)
        requires
            width != 0,
            height != 0,
            instance_state.wf(),
        ensures
            renderer.wf(),
            renderer.size == (Size { width, height }),
            renderer.camera_state.camera_desc.geometry == geometry,
            renderer.camera_state.camera_controller == CameraController::new_spec(),
            renderer.instance_state == instance_state,
            renderer.num_indices == num_indices,
    {
        FrameRenderer {
            size: Size { width, height },
            camera_state: CameraState::new(geometry, width, height),
            instance_state,
            num_indices,
        }
    }

    /// Hands a window event to the camera. Returns whether the camera took
    /// it.
    pub fn input(&mut self, event: &WindowEvent) -> (handled: bool)
        requires
            old(self).wf(),
        ensures
            final(self).wf(),
            handled == CameraController::spec_event_command(*event).is_some(),
            final(self).camera_state.camera_controller
                == old(self).camera_state.camera_controller.spec_after(*event),
            final(self).camera_state.camera_desc == old(self).camera_state.camera_desc,
            final(self).size == old(self).size,
            final(self).instance_state == old(self).instance_state,
            final(self).num_indices == old(self).num_indices,
    {
        self.camera_state.on_input(event)
    }

    /// Decides what an event leads to. The held keys change with it, and
    /// nothing else does.
    pub fn handle_event(&mut self, event: &Event) -> (action: Action)
        requires
            old(self).wf(),
        ensures
            final(self).wf(),
            action == spec_action(*event),
            final(self).camera_state.camera_controller == spec_controller_after(
                old(self).camera_state.camera_controller,
                *event,
            ),
            final(self).camera_state.camera_desc == old(self).camera_state.camera_desc,
            final(self).size == old(self).size,
            final(self).instance_state == old(self).instance_state,
            final(self).num_indices == old(self).num_indices,
    {
        match event {
            Event::Window(e) => {
                if self.input(e) {
                    Action::Idle
                } else {
                    match e {
                        WindowEvent::CloseRequested => Action::Exit,
                        WindowEvent::KeyboardInput {
                            state: ElementState::Pressed,
                            key: Some(Key::Escape),
                        } => Action::Exit,
                        WindowEvent::Resized { width, height } => Self::resize_action(
                            *width,
                            *height,
                        ),
                        WindowEvent::ScaleFactorChanged { width, height } => Self::resize_action(
                            *width,
                            *height,
                        ),
                        _ => Action::Idle,
                    }
                }
            },
            Event::RedrawRequested => Action::Redraw,
            Event::MainEventsCleared => Action::RequestRedraw,
            Event::Other => Action::Idle,
        }
    }

    /// A new size is taken over unless it is empty.
    pub fn resize_action(width: u32, height: u32) -> (action: Action)
        ensures
            action == (if width != 0 && height != 0 {
                Action::Resize(Size { width, height })
            } else {
                Action::Idle
            }),
    {
        if width != 0 && height != 0 {
            Action::Resize(Size { width, height })
        } else {
            Action::Idle
        }
    }

    /// Takes over a new size: the target's and the camera's aspect ratio
    /// with it. Asks for the uniform to be written anew, or fails where the
    /// eye is at the target.
    pub fn resize(&mut self, new_size: Size, sight: Sight) -> (write: Result<BufferWrite, CameraError>)
        requires
            old(self).wf(),
            new_size.width != 0,
            new_size.height != 0,
        ensures
            final(self).wf(),
            final(self).size == new_size,
            final(self).camera_state.camera_desc.geometry
                == old(self).camera_state.camera_desc.geometry,
            final(self).camera_state.camera_controller == old(self).camera_state.camera_controller,
            final(self).instance_state == old(self).instance_state,
            final(self).num_indices == old(self).num_indices,
            write == spec_sync(sight),
    {
        self.size = new_size;
        self.camera_state.on_resize(new_size.width, new_size.height, sight)
    }

    /// One tick of the camera.
    pub fn update(&self, sight: Sight) -> (update: Result<CameraUpdate, CameraError>)
        ensures
            sight == Sight::Coincident ==> update is Err && update->Err_0
                == CameraError::Degenerate,
            sight != Sight::Coincident ==> update is Ok && update->Ok_0.motions@
                == self.camera_state.camera_controller.spec_motions(sight == Sight::Beyond)
                && update->Ok_0.write == spec_full_write(),
    {
        self.camera_state.on_update(sight)
    }

    /// The commands of a frame's one render pass, given what acquiring the
    /// frame came to. Where no frame was acquired nothing is recorded, and
    /// the failure is handed on.
    pub fn render(&self, acquired: Result<(), SwapChainError>) -> (pass: Result<
        Vec<DrawCommand>,
        SwapChainError,
    >)
        requires
            self.wf(),
        ensures
            acquired is Err ==> pass is Err && pass->Err_0 == acquired->Err_0,
            acquired is Ok ==> pass is Ok && pass->Ok_0@ == spec_render_pass(
                self.num_indices,
                self.instance_state@.len() as u32,
            ),
            self.instance_state@.len() <= u32::MAX,
    {
        proof {
            self.instance_state.lemma_len();
        }
        match acquired {
            Err(e) => Err(e),
            Ok(()) => {
                let count: usize = self.instance_state.num_instances();
                let num_instances: u32 = count as u32;
                let mut pass: Vec<DrawCommand> = Vec::new();
                pass.push(DrawCommand::SetPipeline);
                pass.push(DrawCommand::SetBindGroup { slot: 0, group: BindGroup::Material });
                pass.push(DrawCommand::SetBindGroup { slot: 1, group: BindGroup::Camera });
                pass.push(DrawCommand::SetVertexBuffer { slot: 0, buffer: VertexBuffer::Mesh });
                pass.push(
                    DrawCommand::SetVertexBuffer { slot: 1, buffer: VertexBuffer::Instances },
                );
                pass.push(DrawCommand::SetIndexBuffer { format: IndexFormat::Uint16 });
                pass.push(
                    DrawCommand::DrawIndexed {
                        first_index: 0,
                        end_index: self.num_indices,
                        base_vertex: 0,
                        first_instance: 0,
                        end_instance: num_instances,
                    },
                );
                proof {
                    assert(pass@ =~= spec_render_pass(self.num_indices, num_instances));
                }
                Ok(pass)
            },
        }
    }

    /// Decides how a frame's outcome is answered.
    pub fn after_frame(&self, outcome: Result<(), FrameError>) -> (action: Action)
        requires
            self.wf(),
        ensures
            action == spec_after_frame(self.size, outcome),
            action matches Action::Resize(size) ==> size.width != 0 && size.height != 0,
    {
        match outcome {
            Ok(()) => Action::Idle,
            Err(FrameError::Surface(SwapChainError::Lost)) => Action::Resize(self.size),
            Err(FrameError::Surface(SwapChainError::OutOfMemory)) => Action::Exit,
            Err(e) => Action::Report(e),
        }
    }
}

} // verus!
