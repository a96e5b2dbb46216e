//! Input handling, camera-motion decisions and GPU uniform layouts for a
//! small 3D engine.

pub mod compute;
pub mod input;
pub mod layout;
pub mod motion;
pub mod query;
pub mod types;

pub use input::{InputAction, InputEvent, InputsCommanded, Key};
pub use motion::MotionPlan;
pub use types::{ControlScheme, EngineUpdates};
