//! Parser for the Source engine's model formats: the model definition
//! (`.mdl`), the vertex data (`.vvd`) and the triangle strip index
//! (`.dx90.vtx`) files.
//!
//! Each parser takes a byte slice and returns an owned value tree or a
//! [`ModelError`]; no offset dereference can panic. Floating-point fields
//! of the formats are carried as their IEEE-754 bit patterns (`u32` for
//! single precision, `u16` for half precision) so that every structural
//! fact about a parse is stated and proved over plain integers.

mod error;
mod model;
pub mod compressed_vector;
pub mod math;
pub mod mdl;
pub mod reader;
pub mod vtx;
pub mod vvd;

pub use compressed_vector::{Quaternion48, Quaternion64, Vector48};
pub use error::{ModelError, StringError};
pub use math::{Quaternion, RadianEuler, Tangent, Transform3x4, Vector};
pub use mdl::Mdl;
pub use model::{Mesh, Model, SkinTable};
pub use reader::{index_range, IndexRange};
pub use vtx::Vtx;
pub use vvd::Vvd;
