//! Post-processing pipeline for rendered QR-code rasters: rewrite the white
//! background to transparency, overlay a centered logo sized against the
//! code's module width, and recolor the black modules with a two-stop
//! gradient, before serializing the result as PNG.

pub mod estimate;
pub mod gradient;
pub mod logo;
pub mod pipeline;
pub mod png;
pub mod raster;
pub mod render;
pub mod transparency;
