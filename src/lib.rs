//! Layout and composition of a résumé view: positionable, sizeable, drawable elements,
//! collapsible sections that nest them, and the per-frame pass that toggles sections on a
//! press, stacks the elements and turns them into drawing operations.

pub mod geometry;
pub mod model;
pub mod surface;
pub mod text;
pub mod element;
pub mod layout;
pub mod section;
