//! Chart variants and the pieces they share.

pub mod bar;
pub mod cache;
pub mod chart;
pub mod circle;
pub mod geometry;
pub mod heatmap;
pub mod interaction;
pub mod line;
pub mod model;
pub mod numeric;
pub mod parts;
pub mod pie;
pub mod polar;
pub mod radar;
pub mod scale;
pub mod shape;
