//! The camera's bookkeeping: which movement keys are held, what a tick of
//! the controller asks of the eye, the aspect ratio, and where the camera's
//! matrix lies in its uniform buffer.
//!
//! The geometry itself (eye, target, up, field of view, clip planes) is a
//! value of the caller's type `G`. It is carried and never read here.

use vstd::prelude::*;
use crate::input::{
    command_for_key, spec_command_for_key, Command, ElementState, Key, WindowEvent,
};

verus! {

/// Bytes of the camera's uniform: one 4x4 matrix of 32-bit components.
pub const UNIFORM_SIZE: u64 = 64;

/// The camera: its geometry and the aspect ratio `width : height`.
pub struct Camera<G> {
    pub geometry: G,
    pub width: u32,
    pub height: u32,
}

impl<G> Camera<G> {
    /// The aspect ratio is a positive number.
    pub open spec fn has_positive_aspect(&self) -> bool {
        self.width > 0 && self.height > 0
    }

    /// A camera with the given geometry, for a target of `width` by
    /// `height`.
    pub fn new(geometry: G, width: u32, height: u32) -> (camera: Self)
        requires
            width != 0,
            height != 0,
        ensures
            camera.has_positive_aspect(),
            camera.geometry == geometry,
            camera.width == width,
            camera.height == height,
    {
        Camera { geometry, width, height }
    }

    /// Sets the aspect ratio to `width : height` and leaves the geometry as
    /// it is.
    pub fn update_aspect_ratio(&mut self, width: u32, height: u32)
        requires
            width != 0,
            height != 0,
        ensures
            final(self).has_positive_aspect(),
            final(self).width == width,
            final(self).height == height,
            final(self).geometry == old(self).geometry,
    {
        self.width = width;
        self.height = height;
    }
}

/// How far the eye is from the target, held against the controller's step.
#[derive(Clone, Copy, Debug, PartialEq, Eq, Structural)]
pub enum Sight {
    /// The eye is at the target: there is no direction to look in.
    Coincident,
    /// The target is no further than one step away.
    Within,
    /// The target is further than one step away.
    Beyond,
}

/// One movement of the eye.
#[derive(Clone, Copy, Debug, PartialEq, Eq, Structural)]
pub enum Motion {
    /// One step towards the target.
    Advance,
    /// One step away from the target.
    Retreat,
    /// One step to the right on the sphere about the target, at the
    /// distance the eye has once the steps along the view axis are done.
    OrbitRight,
    /// The same to the left.
    OrbitLeft,
}

/// Why the camera cannot be used.
#[derive(Clone, Copy, Debug, PartialEq, Eq, Structural)]
pub enum CameraError {
    /// The eye is at the target.
    Degenerate,
}

/// The six movement keys, each held or not.
#[derive(Clone, Copy, Debug, PartialEq, Eq, Structural)]
pub struct CameraController {
    pub is_up_pressed: bool,
    pub is_down_pressed: bool,
    pub is_forward_pressed: bool,
    pub is_backward_pressed: bool,
    pub is_left_pressed: bool,
    pub is_right_pressed: bool,
}

/// The one movement where `wanted` holds, none otherwise.
pub open spec fn spec_step(wanted: bool, motion: Motion) -> Seq<Motion> {
    if wanted {
        seq![motion]
    } else {
        Seq::empty()
    }
}

impl CameraController {
    /// The controller with the key of `command` set to `pressed`.
    pub open spec fn spec_with(self, command: Command, pressed: bool) -> Self {
        match command {
            Command::MoveUp => CameraController { is_up_pressed: pressed, ..self },
            Command::MoveDown => CameraController { is_down_pressed: pressed, ..self },
            Command::Forward => CameraController { is_forward_pressed: pressed, ..self },
            Command::Backward => CameraController { is_backward_pressed: pressed, ..self },
            Command::Left => CameraController { is_left_pressed: pressed, ..self },
            Command::Right => CameraController { is_right_pressed: pressed, ..self },
        }
    }

    /// The movement that an event presses or releases, if it is a movement
    /// key's event.
    pub open spec fn spec_event_command(event: WindowEvent) -> Option<(Command, bool)> {
        match event {
            WindowEvent::KeyboardInput { state, key: Some(key) } => match spec_command_for_key(
                key,
            ) {
                Some(command) => Some((command, state == ElementState::Pressed)),
                None => None,
            },
            _ => None,
        }
    }

    /// The controller after an event.
    pub open spec fn spec_after(self, event: WindowEvent) -> Self {
        match Self::spec_event_command(event) {
            Some((command, pressed)) => self.spec_with(command, pressed),
            None => self,
        }
    }

    /// What a tick asks of the eye, in the order in which it is done. An
    /// advance is made only where `can_advance` holds; the keys for up and
    /// down move nothing.
    pub open spec fn spec_motions(self, can_advance: bool) -> Seq<Motion> {
        spec_step(self.is_forward_pressed && can_advance, Motion::Advance) + spec_step(
            self.is_backward_pressed,
            Motion::Retreat,
        ) + spec_step(self.is_right_pressed, Motion::OrbitRight) + spec_step(
            self.is_left_pressed,
            Motion::OrbitLeft,
        )
    }

    /// The controller with no key held.
    pub open spec fn new_spec() -> Self {
        CameraController {
            is_up_pressed: false,
            is_down_pressed: false,
            is_forward_pressed: false,
            is_backward_pressed: false,
            is_left_pressed: false,
            is_right_pressed: false,
        }
    }

    /// A controller with no key held.
    pub fn new() -> (controller: Self)
        ensures
            controller == Self::new_spec(),
    {
        CameraController {
            is_up_pressed: false,
            is_down_pressed: false,
            is_forward_pressed: false,
            is_backward_pressed: false,
            is_left_pressed: false,
            is_right_pressed: false,
        }
    }

    /// Takes note of an event. Returns whether it was a movement key's, in
    /// which case nobody else need handle it.
    pub fn process_events(&mut self, event: &WindowEvent) -> (handled: bool)
        ensures
            handled == Self::spec_event_command(*event).is_some(),
            *final(self) == old(self).spec_after(*event),
    {
        match event {
            WindowEvent::KeyboardInput { state, key: Some(key) } => {
                let is_pressed = match state {
                    ElementState::Pressed => true,
                    ElementState::Released => false,
                };
                match command_for_key(*key) {
                    Some(Command::MoveUp) => {
                        self.is_up_pressed = is_pressed;
                        true
                    },
                    Some(Command::MoveDown) => {
                        self.is_down_pressed = is_pressed;
                        true
                    },
                    Some(Command::Forward) => {
                        self.is_forward_pressed = is_pressed;
                        true
                    },
                    Some(Command::Left) => {
                        self.is_left_pressed = is_pressed;
                        true
                    },
                    Some(Command::Backward) => {
                        self.is_backward_pressed = is_pressed;
                        true
                    },
                    Some(Command::Right) => {
                        self.is_right_pressed = is_pressed;
                        true
                    },
                    None => false,
                }
            },
            _ => false,
        }
    }

    /// Plans one tick: the movements of the eye, in order. With the eye at
    /// the target there is no view direction, and the tick fails.
    pub fn update_camera(&self, sight: Sight) -> (plan: Result<Vec<Motion>, CameraError>)
        ensures
            sight == Sight::Coincident ==> plan is Err && plan->Err_0 == CameraError::Degenerate,
            sight != Sight::Coincident ==> plan is Ok && plan->Ok_0@ == self.spec_motions(
                sight == Sight::Beyond,
            ),
    {
        let can_advance = match sight {
            Sight::Coincident => {
                return Err(CameraError::Degenerate);
            },
            Sight::Within => false,
            Sight::Beyond => true,
        };
        let mut motions: Vec<Motion> = Vec::new();
        if self.is_forward_pressed && can_advance {
            motions.push(Motion::Advance);
        }
        if self.is_backward_pressed {
            motions.push(Motion::Retreat);
        }
        if self.is_right_pressed {
            motions.push(Motion::OrbitRight);
        }
        if self.is_left_pressed {
            motions.push(Motion::OrbitLeft);
        }
        proof {
            assert(motions@ =~= self.spec_motions(can_advance));
        }
        Ok(motions)
    }
}

/// The place of a movement in a tick.
pub open spec fn spec_rank(motion: Motion) -> int {
    match motion {
        Motion::Advance => 0,
        Motion::Retreat => 1,
        Motion::OrbitRight => 2,
        Motion::OrbitLeft => 3,
    }
}

/// With the target within one step, no tick advances: the eye never
/// crosses the target.
pub proof fn lemma_no_advance_within_reach(controller: CameraController)
    ensures
        !controller.spec_motions(false).contains(Motion::Advance),
{
    let plan = controller.spec_motions(false);
    assert forall|i: int| 0 <= i < plan.len() implies plan[i] != Motion::Advance by {}
}

/// A tick holds each movement at most once, and in the order advance,
/// retreat, orbit right, orbit left.
pub proof fn lemma_motions_ordered(controller: CameraController, can_advance: bool)
    ensures
        controller.spec_motions(can_advance).len() <= 4,
        forall|i: int, j: int|
            0 <= i < j < controller.spec_motions(can_advance).len() ==> spec_rank(
                controller.spec_motions(can_advance)[i],
            ) < spec_rank(controller.spec_motions(can_advance)[j]),
{
}

/// Only the event of a movement key changes which keys are held.
pub proof fn lemma_other_events_keep_keys(controller: CameraController, event: WindowEvent)
    requires
        CameraController::spec_event_command(event).is_none(),
    ensures
        controller.spec_after(event) == controller,
{
}

/// A key that is pressed and then released is not held, whatever it was
/// before, and the other keys are as they were.
pub proof fn lemma_release_undoes_press(controller: CameraController, key: Key)
    requires
        spec_command_for_key(key).is_some(),
    ensures
        controller.spec_after(
            WindowEvent::KeyboardInput { state: ElementState::Pressed, key: Some(key) },
        ).spec_after(WindowEvent::KeyboardInput { state: ElementState::Released, key: Some(key) })
            == controller.spec_with(spec_command_for_key(key).unwrap(), false),
{
}

/// A write of bytes into a buffer.
#[derive(Clone, Copy, Debug, PartialEq, Eq, Structural)]
pub struct BufferWrite {
    pub offset: u64,
    pub size: u64,
}

/// The shader stage that sees a binding.
#[derive(Clone, Copy, Debug, PartialEq, Eq, Structural)]
pub enum ShaderStage {
    Vertex,
    Fragment,
}

/// The shape of the camera's bind group: one uniform buffer.
#[derive(Clone, Copy, Debug, PartialEq, Eq, Structural)]
pub struct UniformLayout {
    pub binding: u32,
    pub visibility: ShaderStage,
    pub has_dynamic_offset: bool,
    /// Smallest buffer the binding takes, `None` for no limit.
    pub min_binding_size: Option<u64>,
}

/// What the camera's bind group binds: a range of the uniform buffer.
#[derive(Clone, Copy, Debug, PartialEq, Eq, Structural)]
pub struct UniformBinding {
    pub binding: u32,
    pub offset: u64,
    /// Bytes bound, `None` for the buffer's whole length.
    pub size: Option<u64>,
}

/// What a tick asks for: the movements of the eye, then the write of the
/// matrix that results.
#[derive(Debug)]
pub struct CameraUpdate {
    pub motions: Vec<Motion>,
    pub write: BufferWrite,
}

/// The uniform is written whole, never in part.
pub open spec fn spec_full_write() -> BufferWrite {
    BufferWrite { offset: 0, size: UNIFORM_SIZE }
}

/// The write that brings the uniform up to date, or the failure of a camera
/// whose eye is at its target.
pub open spec fn spec_sync(sight: Sight) -> Result<BufferWrite, CameraError> {
    if sight == Sight::Coincident {
        Err(CameraError::Degenerate)
    } else {
        Ok(spec_full_write())
    }
}

/// A camera, its controller and the state of its uniform.
pub struct CameraState<G> {
    pub camera_desc: Camera<G>,
    pub camera_controller: CameraController,
}

impl<G> CameraState<G> {
    /// A camera state for a target of `width` by `height`, with no key
    /// held.
    pub fn new(geometry: G, width: u32, height: u32) -> (state: Self)
        requires
            width != 0,
            height != 0,
        ensures
            state.camera_desc.has_positive_aspect(),
            state.camera_desc.geometry == geometry,
            state.camera_desc.width == width,
            state.camera_desc.height == height,
            state.camera_controller == CameraController::new_spec(),
    {
        CameraState {
            camera_desc: Camera::new(geometry, width, height),
            camera_controller: CameraController::new(),
        }
    }

    /// One tick: the movements that the held keys ask for, and the write of
    /// the whole uniform that follows them. Fails, with nothing to move or
    /// write, where the eye is at the target.
    pub fn on_update(&self, sight: Sight) -> (update: Result<CameraUpdate, CameraError>)
        ensures
            sight == Sight::Coincident ==> update is Err && update->Err_0
                == CameraError::Degenerate,
            sight != Sight::Coincident ==> update is Ok && update->Ok_0.motions@
                == self.camera_controller.spec_motions(sight == Sight::Beyond)
                && update->Ok_0.write == spec_full_write(),
    {
        match self.camera_controller.update_camera(sight) {
            Ok(motions) => Ok(CameraUpdate { motions, write: Self::full_write() }),
            Err(e) => Err(e),
        }
    }

    /// Takes the new size as the aspect ratio and asks for the uniform to
    /// be written anew. The geometry and the keys stay as they are.
    pub fn on_resize(&mut self, width: u32, height: u32, sight: Sight) -> (write: Result<
        BufferWrite,
        CameraError,
    >)
        requires
            width != 0,
            height != 0,
        ensures
            final(self).camera_desc.has_positive_aspect(),
            final(self).camera_desc.width == width,
            final(self).camera_desc.height == height,
            final(self).camera_desc.geometry == old(self).camera_desc.geometry,
            final(self).camera_controller == old(self).camera_controller,
            write == spec_sync(sight),
    {
        self.camera_desc.update_aspect_ratio(width, height);
        Self::sync(sight)
    }

    /// Hands an event to the controller. Returns whether it was a movement
    /// key's.
    pub fn on_input(&mut self, event: &WindowEvent) -> (handled: bool)
        ensures
            handled == CameraController::spec_event_command(*event).is_some(),
            final(self).camera_controller == old(self).camera_controller.spec_after(*event),
            final(self).camera_desc == old(self).camera_desc,
    {
        self.camera_controller.process_events(event)
    }

    /// The shape of the camera's bind group: binding 0, a uniform buffer
    /// that the vertex stage alone sees.
    pub fn bind_group_layout(&self) -> (layout: UniformLayout)
        ensures
            layout == (UniformLayout {
                binding: 0,
                visibility: ShaderStage::Vertex,
                has_dynamic_offset: false,
                min_binding_size: None,
            }),
    {
        UniformLayout {
            binding: 0,
            visibility: ShaderStage::Vertex,
            has_dynamic_offset: false,
            min_binding_size: None,
        }
    }

    /// What the camera's bind group binds: the whole uniform buffer, at
    /// binding 0.
    pub fn bind_group(&self) -> (binding: UniformBinding)
        ensures
            binding == (UniformBinding { binding: 0, offset: 0, size: None }),
    {
        UniformBinding { binding: 0, offset: 0, size: None }
    }

    /// The write of the whole uniform.
    pub fn full_write() -> (write: BufferWrite)
        ensures
            write == spec_full_write(),
    {
        BufferWrite { offset: 0, size: UNIFORM_SIZE }
    }

    /// The write that brings the uniform up to date with the camera, or
    /// the failure of a camera whose eye is at its target.
    pub fn sync(sight: Sight) -> (write: Result<BufferWrite, CameraError>)
        ensures
            write == spec_sync(sight),
    {
        match sight {
            Sight::Coincident => Err(CameraError::Degenerate),
            _ => Ok(Self::full_write()),
        }
    }
}

} // verus!
