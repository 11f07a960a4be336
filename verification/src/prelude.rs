//! What most users of the library need.

pub use crate::utils::AsGodotFixedUpdate;
pub use crate::utils::AsVisualSystem;
pub use crate::utils::GodotFixedUpdate;
pub use crate::utils::GodotUpdate;
