use image::{DynamicImage, GenericImageView};
use paddleocr_rs_onnx::orientation::{corrected_image, correction_for, rotate_image, ImageRotation};
use paddleocr_rs_onnx::DocOrientation;

#[test]
fn angles() {
    assert_eq!(DocOrientation::Upright.angle(), 0);
    assert_eq!(DocOrientation::Rotate90.angle(), 90);
    assert_eq!(DocOrientation::Rotate180.angle(), 180);
    assert_eq!(DocOrientation::Rotate270.angle(), 270);
}

#[test]
fn corrections() {
    assert_eq!(correction_for(DocOrientation::Upright), ImageRotation::Identity);
    assert_eq!(correction_for(DocOrientation::Rotate90), ImageRotation::Clockwise90);
    assert_eq!(correction_for(DocOrientation::Rotate180), ImageRotation::Clockwise180);
    assert_eq!(correction_for(DocOrientation::Rotate270), ImageRotation::Clockwise270);
}

fn marked_image() -> DynamicImage {
    // 3 wide, 2 high; the top-left pixel is marked
    let mut image = image::RgbImage::new(3, 2);
    image.put_pixel(0, 0, image::Rgb([255, 0, 0]));
    DynamicImage::ImageRgb8(image)
}

fn marked_corner(image: &DynamicImage) -> (u32, u32) {
    let (w, h) = image.dimensions();
    for y in 0..h {
        for x in 0..w {
            if image.get_pixel(x, y).0[0] == 255 {
                return (x, y);
            }
        }
    }
    panic!("mark lost");
}

#[test]
fn rotations_turn_the_image() {
    let image = marked_image();
    let same = rotate_image(&image, ImageRotation::Identity);
    assert_eq!(same.dimensions(), (3, 2));
    assert_eq!(marked_corner(&same), (0, 0));
    let quarter = rotate_image(&image, ImageRotation::Clockwise90);
    assert_eq!(quarter.dimensions(), (2, 3));
    assert_eq!(marked_corner(&quarter), (1, 0));
    let half = rotate_image(&image, ImageRotation::Clockwise180);
    assert_eq!(half.dimensions(), (3, 2));
    assert_eq!(marked_corner(&half), (2, 1));
    let three = rotate_image(&image, ImageRotation::Clockwise270);
    assert_eq!(three.dimensions(), (2, 3));
    assert_eq!(marked_corner(&three), (0, 2));
}

#[test]
fn correcting_a_turned_document_restores_it() {
    let upright = marked_image();
    let turned = [
        (DocOrientation::Upright, upright.clone()),
        // content turned 90 degrees counter-clockwise
        (DocOrientation::Rotate90, upright.rotate270()),
        (DocOrientation::Rotate180, upright.rotate180()),
        // content turned 270 degrees counter-clockwise
        (DocOrientation::Rotate270, upright.rotate90()),
    ];
    for (orientation, image) in turned {
        let corrected = corrected_image(&image, orientation);
        assert_eq!(corrected.dimensions(), (3, 2));
        assert_eq!(marked_corner(&corrected), (0, 0));
    }
}

#[test]
fn upright_document_is_kept_as_it_is() {
    let image = marked_image();
    assert_eq!(rotate_image(&image, ImageRotation::Identity), image);
    assert_eq!(corrected_image(&image, DocOrientation::Upright), image);
}
