//! Decision logic of a small instanced-scene renderer: camera input and
//! bookkeeping, the instance grid, buffer layouts and the frame loop.

pub mod camera;
pub mod input;
pub mod instance;
pub mod renderer;
