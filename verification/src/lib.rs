//! Verified core of an ONNX-based OCR engine for PaddleOCR models: the choice of
//! hardware acceleration, the configuration of inference sessions, the loading of the
//! recognition dictionary, the geometry of the recognition input, the ordering of
//! recognised text blocks and the correction of a document's orientation.
pub mod builder;
pub mod device;
pub mod engine;
pub mod error;
pub mod ordering;
pub mod orientation;
pub mod runtime;
pub mod signature;
pub mod sync;
pub mod text;

pub use device::AccelerationDevice;
pub use engine::OcrEngine;
pub use error::PaddleOcrError;
pub use ordering::OrderBy;
pub use orientation::{DocOrientation, DocOrientationClassifier};
