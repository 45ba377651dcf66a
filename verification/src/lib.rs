use vstd::prelude::*;

pub mod model;
pub mod raster;
pub mod trace;
pub mod points;
pub mod calibration;
pub mod text;
pub mod imaging;
pub mod demo;
pub mod project;
