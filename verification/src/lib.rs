//! Multi-scale feature extraction for object detection, and the ingestion of
//! COCO-style annotations that feeds it.
//!
//! * [`data`] groups annotation records by image and assembles detection
//!   items with bounding boxes expressed relative to the image they belong to.
//! * [`model`] holds the convolutional backbone and the feature-pyramid neck,
//!   together with the proof that every tensor handed from one layer to the
//!   next has the shape that layer expects.
//! * [`layers`] is the boundary to the tensor engine and [`raster`] the
//!   boundary to the image codec library; [`shape`] is the arithmetic both
//!   the contracts and the model rely on.
pub mod data;
pub mod layers;
pub mod model;
pub mod raster;
pub mod shape;
