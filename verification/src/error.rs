//! The library's error type.
use vstd::prelude::*;

verus! {

/// The error that ONNX Runtime reports.
#[verifier::external_type_specification]
#[verifier::external_body]
#[verifier::reject_recursive_types(R)]
pub struct ExOrtError<R>(ort::Error<R>);

/// The error that UTF-8 validation reports.
#[verifier::external_type_specification]
#[verifier::external_body]
pub struct ExUtf8Error(core::str::Utf8Error);

/// The error that the image crate reports.
#[verifier::external_type_specification]
#[verifier::external_body]
pub struct ExImageError(image::ImageError);

/// The errors of the OCR engine.
#[derive(Debug)]
pub enum PaddleOcrError {
    /// Image processing failed.
    Image { message: String },
    /// Loading a model failed.
    Model(ort::Error),
    /// Inference failed.
    Inference { message: String },
    /// Preprocessing failed.
    Preprocessing { message: String },
    /// Decoding failed.
    Decoding { message: String },
    /// The recognition dictionary is not valid UTF-8.
    Utf8(core::str::Utf8Error),
    /// A text region is degenerate.
    DegenerateRegion { reason: String },
    /// A perspective projection failed.
    Projection { reason: String },
    /// Any other error.
    General(String),
}

impl From<image::ImageError> for PaddleOcrError {
    /// An image error becomes an `Image` error that carries the error's message (what
    /// its `Display` writes).
    fn from(err: image::ImageError) -> (r: Self)
        ensures
            r matches PaddleOcrError::Image { message } && vstd::string::to_string_from_display_ensures::<
                image::ImageError,
            >(&err, message),
    {
        PaddleOcrError::Image { message: err.to_string() }
    }
}

impl vstd::std_specs::convert::FromSpecImpl<image::ImageError> for PaddleOcrError {
    /// The message that an image error displays is not modelled, so no single value
    /// is claimed for the conversion; `from` states what holds of every outcome.
    open spec fn obeys_from_spec() -> bool {
        false
    }

    open spec fn from_spec(err: image::ImageError) -> Self {
        PaddleOcrError::Image { message: arbitrary() }
    }
}

} // verus!
