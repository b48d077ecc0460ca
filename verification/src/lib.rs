//! Small integer vectors stored in fixed-width lane registers.
//!
//! - [`lanes`]: registers as arrays of lanes, with wrapping 32-bit integer arithmetic on every
//!   lane and the movement of lanes within and between registers.
//! - [`vector2i`], [`vector3i`], [`vector4i`]: vectors of two, three and four `i32` components.
//!   The three-component vector occupies a register of four lanes and keeps the fourth zero.
//! - [`transpose`]: the transposition of a 4x4 matrix of column registers by a shuffle network.
//! - [`accessors`]: the enumeration of the component-reordering accessors of a vector type,
//!   and the source text of each.
//! - [`formatting`]: the types of std that formatting hands through.

pub mod accessors;
pub mod formatting;
pub mod lanes;
pub mod transpose;
pub mod vector2i;
pub mod vector3i;
pub mod vector4i;

pub use vector2i::Vector2i;
pub use vector3i::Vector3i;
pub use vector4i::Vector4i;
