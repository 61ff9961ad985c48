//! Geometry engine that turns a grayscale sample grid into the facets of a
//! closed relief solid: a triangulated top surface, four side walls and a
//! floor cap.
//!
//! Everything here works on whole numbers. A corner of a facet is a grid
//! position together with the level it sits on (the sampled surface or the
//! flat floor); turning levels into physical heights is left to the caller.
//!
//! - [`planner`]: the exact number of facets, section by section.
//! - [`heightmap`]: the sample grid with its lowest and highest sample.
//! - [`decoded`]: the sample grid of a decoded image of the `image` crate.
//! - [`facet`]: corners and facets.
//! - [`mesh`]: the facets of the solid and the generator that emits them.
//! - [`topology`]: proof that the facets close up into a solid without boundary.
//! - [`vector`] and [`orientation`]: proof that every facet faces outward.

pub mod decoded;
pub mod facet;
pub mod heightmap;
pub mod mesh;
pub mod orientation;
pub mod planner;
pub mod topology;
pub mod vector;
