//! Layout and alignment toolkit for rectangles on integer pixel grids.
//!
//! The crate provides two building blocks:
//!
//! - alignment primitives: pure functions that compute the signed offset that
//!   moves one rectangle into a chosen relationship with a reference rectangle
//!   along one axis (see [`horizontal`] and [`vertical`]);
//! - a linear arrangement engine ([`linear_layout::LinearLayout`]) that places
//!   an ordered collection of rectangles one after the other along a primary
//!   axis, aligns them on the secondary axis, and applies an element spacing
//!   policy.
//!
//! All computations are exact integer arithmetic; every public operation
//! carries a contract that pins its result down to the pixel.

pub mod align;
pub mod geometry;
pub mod horizontal;
pub mod limits;
pub mod linear_layout;
pub mod measure;
pub mod object_chain;
pub mod spacing;
pub mod vertical;
pub mod view_group;
