use image::error::{LimitError, LimitErrorKind};
use paddleocr_rs_onnx::PaddleOcrError;

#[test]
fn image_errors_become_image_errors() {
    let err = image::ImageError::Limits(LimitError::from_kind(LimitErrorKind::DimensionError));
    let expected = err.to_string();
    match PaddleOcrError::from(err) {
        PaddleOcrError::Image { message } => assert_eq!(message, expected),
        other => panic!("expected an Image error, got {:?}", other),
    }
}
