//! Pure pieces of a set of reactive UI demos: the values that the components
//! hold in signals and context, the decisions their event handlers make, and
//! the text they render.

pub mod dark_mode;
pub mod control_flow;
pub mod props;
pub mod reactivity;
