//! The bookkeeping of the scene renderer: which triangles go into which draw,
//! what is clipped, and what is kept from one frame to the next.
//!
//! Points and colours are computed outside; here they are only compared and
//! sorted into place.

pub mod clip;
pub mod geometry;
pub mod glyphs;
pub mod gradient;
pub mod renderer;
pub mod texture;
