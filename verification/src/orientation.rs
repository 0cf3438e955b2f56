//! Document orientation: the classifier's session, and the rotation that turns a
//! document upright again.
use vstd::prelude::*;
use ort::session::Session;
use image::DynamicImage;
use crate::device::AccelerationDevice;
use crate::error::PaddleOcrError;
use ort::environment::Environment;
use crate::engine::{is_session_error, made_for};
use crate::runtime::{create_session, first_input_name, first_output_name, LoadedSession};
use crate::sync::{new_session_lock, session_lock};

verus! {

/// An image of the image crate, in any pixel format.
#[verifier::external_type_specification]
#[verifier::external_body]
pub struct ExDynamicImage(image::DynamicImage);

/// The orientation of a document image: how far its content is turned
/// counter-clockwise from upright, and so how far it must be turned clockwise to be
/// read.
#[derive(Debug, Clone, Copy, PartialEq, Eq, Structural)]
pub enum DocOrientation {
    /// 0°: upright.
    Upright,
    /// 90°: needs a clockwise rotation by 90°.
    Rotate90,
    /// 180°: needs a rotation by 180°.
    Rotate180,
    /// 270°: needs a counter-clockwise rotation by 90°.
    Rotate270,
}

/// The angle of an orientation, in degrees.
pub open spec fn orientation_angle(o: DocOrientation) -> nat {
    match o {
        DocOrientation::Upright => 0,
        DocOrientation::Rotate90 => 90,
        DocOrientation::Rotate180 => 180,
        DocOrientation::Rotate270 => 270,
    }
}

impl DocOrientation {
    /// The angle of the orientation in degrees: 0, 90, 180 or 270.
    pub fn angle(&self) -> (r: u32)
        ensures
            r == orientation_angle(*self),
    {
        match self {
            DocOrientation::Upright => 0,
            DocOrientation::Rotate90 => 90,
            DocOrientation::Rotate180 => 180,
            DocOrientation::Rotate270 => 270,
        }
    }
}

/// A clockwise rotation of an image by a whole number of quarter turns.
#[derive(Debug, Clone, Copy, PartialEq, Eq, Structural)]
pub enum ImageRotation {
    /// The image is kept as it is.
    Identity,
    /// 90 degrees clockwise.
    Clockwise90,
    /// 180 degrees clockwise.
    Clockwise180,
    /// 270 degrees clockwise (90 degrees counter-clockwise).
    Clockwise270,
}

/// The clockwise angle of a rotation, in degrees.
pub open spec fn rotation_degrees(r: ImageRotation) -> nat {
    match r {
        ImageRotation::Identity => 0,
        ImageRotation::Clockwise90 => 90,
        ImageRotation::Clockwise180 => 180,
        ImageRotation::Clockwise270 => 270,
    }
}

/// The rotation that corrects an orientation.
pub open spec fn correction_of(o: DocOrientation) -> ImageRotation {
    match o {
        DocOrientation::Upright => ImageRotation::Identity,
        DocOrientation::Rotate90 => ImageRotation::Clockwise90,
        DocOrientation::Rotate180 => ImageRotation::Clockwise180,
        DocOrientation::Rotate270 => ImageRotation::Clockwise270,
    }
}

/// The correction turns a document upright: a document whose content is turned
/// counter-clockwise by its orientation's angle is rotated clockwise by that same angle.
pub proof fn lemma_correction_restores_upright(o: DocOrientation)
    ensures
        rotation_degrees(correction_of(o)) == orientation_angle(o),
        (rotation_degrees(correction_of(o)) + (360 - orientation_angle(o))) % 360 == 0,
{
}

/// What `DynamicImage::clone` returns for an image: a copy of its pixel buffer, with
/// the same pixel format and dimensions.
pub uninterp spec fn cloned_image(image: DynamicImage) -> DynamicImage;

/// What `DynamicImage::rotate90` returns for an image: the image rotated 90 degrees
/// clockwise.
pub uninterp spec fn rotated_clockwise90(image: DynamicImage) -> DynamicImage;

/// What `DynamicImage::rotate180` returns for an image: the image rotated 180 degrees.
pub uninterp spec fn rotated_clockwise180(image: DynamicImage) -> DynamicImage;

/// What `DynamicImage::rotate270` returns for an image: the image rotated 270 degrees
/// clockwise.
pub uninterp spec fn rotated_clockwise270(image: DynamicImage) -> DynamicImage;

/// What `GenericImageView::dimensions` returns for an image: its width and its height.
pub uninterp spec fn image_dimensions(image: DynamicImage) -> (u32, u32);

/// The image crate's rotation of `image` by `rotation`.
pub open spec fn rotated_by(image: DynamicImage, rotation: ImageRotation) -> DynamicImage {
    match rotation {
        ImageRotation::Identity => cloned_image(image),
        ImageRotation::Clockwise90 => rotated_clockwise90(image),
        ImageRotation::Clockwise180 => rotated_clockwise180(image),
        ImageRotation::Clockwise270 => rotated_clockwise270(image),
    }
}

/// The dimensions of an image of dimensions `dims` after `rotation`: a quarter turn
/// swaps width and height.
pub open spec fn rotated_dimensions(dims: (u32, u32), rotation: ImageRotation) -> (u32, u32) {
    match rotation {
        ImageRotation::Clockwise90 | ImageRotation::Clockwise270 => (dims.1, dims.0),
        _ => dims,
    }
}

/// Calls `DynamicImage::clone`. Claimed: the result is `cloned_image` of the image,
/// which has the image's dimensions (the clone copies each pixel buffer as it is).
#[verifier::external_body]
fn copy_image(image: &DynamicImage) -> (r: DynamicImage)
    ensures
        r == cloned_image(*image),
        image_dimensions(r) == image_dimensions(*image),
{
    image.clone()
}

/// Calls `DynamicImage::rotate90`. Claimed: the result is `rotated_clockwise90` of the
/// image, whose width is the image's height and whose height is its width (the rotated
/// buffer is made with the dimensions swapped).
#[verifier::external_body]
fn image_rotate90(image: &DynamicImage) -> (r: DynamicImage)
    ensures
        r == rotated_clockwise90(*image),
        image_dimensions(r) == (image_dimensions(*image).1, image_dimensions(*image).0),
{
    image.rotate90()
}

/// Calls `DynamicImage::rotate180`. Claimed: the result is `rotated_clockwise180` of
/// the image, which has the image's dimensions.
#[verifier::external_body]
fn image_rotate180(image: &DynamicImage) -> (r: DynamicImage)
    ensures
        r == rotated_clockwise180(*image),
        image_dimensions(r) == image_dimensions(*image),
{
    image.rotate180()
}

/// Calls `DynamicImage::rotate270`. Claimed: the result is `rotated_clockwise270` of
/// the image, whose width is the image's height and whose height is its width.
#[verifier::external_body]
fn image_rotate270(image: &DynamicImage) -> (r: DynamicImage)
    ensures
        r == rotated_clockwise270(*image),
        image_dimensions(r) == (image_dimensions(*image).1, image_dimensions(*image).0),
{
    image.rotate270()
}

/// The rotation that corrects a document found in orientation `o`: a document at 90°
/// is rotated 90° clockwise, one at 180° is rotated 180°, one at 270° is rotated 90°
/// counter-clockwise (270° clockwise), and an upright one is kept.
pub fn correction_for(o: DocOrientation) -> (r: ImageRotation)
    ensures
        r == correction_of(o),
{
    match o {
        DocOrientation::Upright => ImageRotation::Identity,
        DocOrientation::Rotate90 => ImageRotation::Clockwise90,
        DocOrientation::Rotate180 => ImageRotation::Clockwise180,
        DocOrientation::Rotate270 => ImageRotation::Clockwise270,
    }
}

/// Rotates an image clockwise by `rotation`: the identity gives a copy of the image,
/// the other rotations the image crate's rotation by that angle.
pub fn rotate_image(image: &DynamicImage, rotation: ImageRotation) -> (r: DynamicImage)
    ensures
        r == rotated_by(*image, rotation),
        image_dimensions(r) == rotated_dimensions(image_dimensions(*image), rotation),
{
    match rotation {
        ImageRotation::Identity => copy_image(image),
        ImageRotation::Clockwise90 => image_rotate90(image),
        ImageRotation::Clockwise180 => image_rotate180(image),
        ImageRotation::Clockwise270 => image_rotate270(image),
    }
}

/// The upright image of a document found in orientation `o`: the image rotated by
/// `correction_for(o)`. A document at 90° or 270° comes back with width and height
/// swapped; otherwise with its dimensions.
pub fn corrected_image(image: &DynamicImage, o: DocOrientation) -> (r: DynamicImage)
    ensures
        r == rotated_by(*image, correction_of(o)),
        image_dimensions(r) == (if o is Rotate90 || o is Rotate270 {
            (image_dimensions(*image).1, image_dimensions(*image).0)
        } else {
            image_dimensions(*image)
        }),
{
    let rotation = correction_for(o);
    rotate_image(image, rotation)
}

/// Document orientation classifier for the PP-LCNet_x1_0_doc_ori model, which tells
/// whether a document image is turned 0°, 90°, 180° or 270°.
pub struct DocOrientationClassifier {
    session: parking_lot::Mutex<Session>,
    input_name: String,
    output_name: String,
    device: AccelerationDevice,
    loaded: Ghost<LoadedSession>,
}

impl DocOrientationClassifier {
    /// The classifier's acceleration device.
    pub closed spec fn device_view(&self) -> AccelerationDevice {
        self.device
    }

    /// The classifier's session as it was created, with its source and signature.
    pub closed spec fn classifier_session(&self) -> LoadedSession {
        self.loaded@
    }

    /// The names of the model's input and output that inference uses.
    pub closed spec fn io_names(&self) -> (Seq<char>, Seq<char>) {
        (self.input_name@, self.output_name@)
    }

    /// The lock of the classifier's session.
    pub closed spec fn lock(&self) -> parking_lot::Mutex<Session> {
        self.session
    }

    /// What a classifier assembled from the session `loaded` on `device` is.
    pub open spec fn assembled_from(&self, loaded: LoadedSession, device: AccelerationDevice) -> bool {
        &&& self.device_view() == device
        &&& self.classifier_session() == loaded
        &&& loaded.input_names().len() > 0
        &&& loaded.output_names().len() > 0
        &&& self.io_names() == (loaded.input_names()[0], loaded.output_names()[0])
        &&& self.lock() == session_lock(loaded.session_view())
    }

    /// What a classifier created from this model on this device is.
    pub open spec fn created_from(&self, model_data: Seq<u8>, device: AccelerationDevice) -> bool {
        &&& self.assembled_from(self.classifier_session(), device)
        &&& made_for(self.classifier_session(), model_data, device)
    }

    /// Assembles a classifier from its session: a model without inputs, or without
    /// outputs, is refused with a `General` error that says so; otherwise the classifier
    /// holds the session and the names of its first input and output.
    pub fn assemble(loaded: LoadedSession, device: AccelerationDevice) -> (r: Result<Self, PaddleOcrError>)
        ensures
            loaded.input_names().len() == 0 ==> (r matches Err(PaddleOcrError::General(m)) && m@
                == "the model has no inputs"@),
            loaded.input_names().len() > 0 && loaded.output_names().len() == 0 ==> (r matches Err(
                PaddleOcrError::General(m),
            ) && m@ == "the model has no outputs"@),
            loaded.input_names().len() > 0 && loaded.output_names().len() > 0 ==> (r matches Ok(c)
                && c.assembled_from(loaded, device)),
    {
        let input_name = match first_input_name(&loaded) {
            Ok(n) => n,
            Err(e) => {
                return Err(e);
            },
        };
        let output_name = match first_output_name(&loaded) {
            Ok(n) => n,
            Err(e) => {
                return Err(e);
            },
        };
        let ghost snapshot = loaded;
        Ok(DocOrientationClassifier {
            session: new_session_lock(loaded.into_session()),
            input_name,
            output_name,
            device,
            loaded: Ghost(snapshot),
        })
    }

    /// Creates a classifier from ONNX model data, on the default device (the CPU), in
    /// the ONNX Runtime `environment`.
    pub fn new(model_data: &[u8], environment: &Environment) -> (r: Result<Self, PaddleOcrError>)
        ensures
            r matches Ok(c) ==> c.created_from(model_data@, AccelerationDevice::Cpu),
            r matches Err(e) ==> is_session_error(e),
    {
        Self::new_with_device(model_data, AccelerationDevice::default(), environment)
    }

    /// Creates a classifier from ONNX model data on a given acceleration device, in the
    /// ONNX Runtime `environment`. The session is made from `model_data` with the
    /// device's execution provider requested; ONNX Runtime's refusals are `Model`
    /// errors. What follows, for the session, is `assemble`.
    pub fn new_with_device(model_data: &[u8], device: AccelerationDevice, environment: &Environment) -> (r: Result<Self, PaddleOcrError>)
        ensures
            r matches Ok(c) ==> c.created_from(model_data@, device),
            r matches Err(e) ==> is_session_error(e),
    {
        let loaded = match create_session(environment, model_data, device) {
            Ok(s) => s,
            Err(e) => {
                return Err(e);
            },
        };
        Self::assemble(loaded, device)
    }

    /// Returns the acceleration device used by this classifier.
    pub fn device(&self) -> (r: AccelerationDevice)
        ensures
            r == self.device_view(),
    {
        self.device
    }
}

} // verus!
