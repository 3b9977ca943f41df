//! Geometry and noise primitives for SVG rendering: a packed path
//! representation, marker placement along paths, and the integer lattice
//! behind `feTurbulence`.

pub mod marker;
pub mod noise;
pub mod parsers;
pub mod path_builder;
