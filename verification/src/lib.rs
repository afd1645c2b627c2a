//! Typed values for launching a child process: scalars, strings and open OS
//! resource handles are lowered into command-line arguments and environment
//! values, and each handle into a descriptor number at which the child finds
//! the resource open.

pub mod convert;
pub mod float;
pub mod handle;
pub mod lower;
pub mod text;
pub mod types;
pub mod val;

pub use convert::InterTypeable;
pub use float::{Binary32, Binary64};
pub use lower::{
    descriptors_suffice, make_command, Convention, ProcessSpec, Rendered, Slot, Unimplemented,
    FIRST_DESCRIPTOR,
};
pub use types::{InterType, TypeModel};
pub use val::{InterVal, ValModel};
