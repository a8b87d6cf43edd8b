//! Placement of a popup against a target widget or point, and the
//! controller that recomputes it once layout has settled.
pub mod geometry;
pub mod popup;
pub mod controller;
pub mod view;
