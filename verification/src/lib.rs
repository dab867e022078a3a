//! Core of a GPU map renderer: backend-agnostic drawing primitives are
//! tessellated into render bundles, compiled into immutable packed bundles,
//! and composited per frame with a view transform derived from the current
//! map center, resolution and rotation.
//!
//! Geometry and transform arithmetic use fixed-point integers so that every
//! step of the pipeline carries an exact contract; converting the packed data
//! to the floating-point layout a GPU expects, and issuing the actual device
//! calls, is left to an unverified shell around this library.

pub mod bundle;
pub mod canvas;
pub mod color;
pub mod error;
pub mod events;
pub mod fixed;
pub mod mat;
pub mod mesh;
pub mod packed;
pub mod renderer;
pub mod tess;
pub mod view;
