use paddleocr_rs_onnx::engine::recognition_geometry;
use paddleocr_rs_onnx::engine::{
    recognition_height, recognition_pool_size, recognition_shape, recognition_width,
};

#[test]
fn default_recognition_shape() {
    assert_eq!(recognition_shape(None), vec![1, 3, 48, 320]);
    assert_eq!(recognition_shape(Some(vec![1, 3, 32, -1])), vec![1, 3, 32, -1]);
}

#[test]
fn height_is_the_third_dimension() {
    assert_eq!(recognition_height(&[1, 3, 32, 100]), 32);
    assert_eq!(recognition_height(&[1, 3, 48, 320]), 48);
}

#[test]
fn height_defaults_to_48() {
    assert_eq!(recognition_height(&[1, 3]), 48);
    assert_eq!(recognition_height(&[]), 48);
}

#[test]
fn height_is_at_least_one() {
    assert_eq!(recognition_height(&[1, 3, -1, -1]), 1);
    assert_eq!(recognition_height(&[1, 3, 0, 100]), 1);
}

#[test]
fn height_is_truncated_to_32_bits() {
    assert_eq!(recognition_height(&[1, 3, (1i64 << 32) + 5, 1]), 5);
}

#[test]
fn width_is_the_positive_fourth_dimension() {
    assert_eq!(recognition_width(&[1, 3, 48, 320]), Some(320));
    assert_eq!(recognition_width(&[1, 3, 48, -1]), None);
    assert_eq!(recognition_width(&[1, 3, 48, 0]), None);
    assert_eq!(recognition_width(&[1, 3, 48]), None);
}

#[test]
fn pool_holds_half_the_cores() {
    assert_eq!(recognition_pool_size(0), 1);
    assert_eq!(recognition_pool_size(1), 1);
    assert_eq!(recognition_pool_size(2), 1);
    assert_eq!(recognition_pool_size(8), 4);
    assert_eq!(recognition_pool_size(9), 4);
}

#[test]
fn geometry_follows_the_declared_shape() {
    assert_eq!(recognition_geometry(&None), (48, Some(320)));
    assert_eq!(recognition_geometry(&Some(vec![1, 3, 32, -1])), (32, None));
    assert_eq!(recognition_geometry(&Some(vec![1, 3, 64, 640])), (64, Some(640)));
}

#[test]
fn full_image_needs_a_pixel_each_way() {
    assert!(paddleocr_rs_onnx::ordering::full_image_usable(1, 1));
    assert!(paddleocr_rs_onnx::ordering::full_image_usable(640, 480));
    assert!(!paddleocr_rs_onnx::ordering::full_image_usable(0, 480));
    assert!(!paddleocr_rs_onnx::ordering::full_image_usable(640, 0));
}
