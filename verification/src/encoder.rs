//! What the encoder is told: the attributes and the layout of the file.
//! The pixels themselves it samples from the session, see
//! [`ImageData::rgba`](crate::image::ImageData::rgba).

use vstd::prelude::*;
use crate::encoding::{encoding_for, resolve_encoding, Encoding};
use crate::image::{Camera, CameraView, ImageData, ImageView};
use crate::sample::{is_zero, zero};

verus! {

/// The element of the world-to-screen matrix that must not be zero for a
/// field of view to be derived: row 3 of column 2, the columns of four
/// elements following each other.
pub const PROJECTION_ELEMENT: usize = 11;

/// A file to be written: four channels of 32-bit floating samples.
#[derive(Debug)]
pub struct EncodeJob {
    pub file_name: String,
    pub width: usize,
    pub height: usize,
    /// Pixel aspect, matrices, clip planes and the renderer's name.
    pub camera: Camera,
    /// The horizontal and the vertical field of view are to be derived from
    /// the two matrices.
    pub field_of_view: bool,
    pub encoding: Encoding,
}

impl CameraView {
    /// The fields of view can be derived: both matrices are known and the
    /// projection is not degenerate.
    pub open spec fn derives_field_of_view(self) -> bool {
        &&& self.world_to_camera.is_some()
        &&& self.world_to_screen matches Some(m)
        &&& !is_zero(m[PROJECTION_ELEMENT as int])
    }
}

impl ImageView {
    /// A file is written: colour and alpha are both mapped.
    pub open spec fn encodes(self) -> bool {
        self.rgb_slot().is_some() && self.channels.alpha_index.is_some()
    }

    /// `job` is the encoder's input for this session.
    pub open spec fn encode_input(self, job: EncodeJob) -> bool {
        &&& job.file_name@ == self.file_name
        &&& job.width == self.width
        &&& job.height == self.height
        &&& job.camera@ == self.camera
        &&& job.field_of_view == self.camera.derives_field_of_view()
        &&& job.encoding == encoding_for(
            self.policy.compression,
            self.policy.line_order,
            self.policy.tile_size,
        )
    }
}

/// Whether the fields of view can be derived from the camera's matrices.
pub fn derives_field_of_view(camera: &Camera) -> (r: bool)
    ensures
        r == camera@.derives_field_of_view(),
{
    match (&camera.world_to_camera, &camera.world_to_screen) {
        (Some(_), Some(m)) => !zero(m[PROJECTION_ELEMENT]),
        _ => false,
    }
}

/// The encoder's input, or nothing where no file is to be written
/// because colour or alpha is not mapped.
pub fn encode_job(image: &ImageData) -> (r: Option<EncodeJob>)
    requires
        image.wf(),
    ensures
        match r {
            Some(job) => image@.encodes() && image@.encode_input(job),
            None => !image@.encodes(),
        },
{
    if image.rgb_slot().is_none() || image.channels().alpha_index.is_none() {
        return None;
    }
    let policy = image.policy();
    Some(
        EncodeJob {
            file_name: image.file_name().clone(),
            width: image.width(),
            height: image.height(),
            camera: image.camera().duplicate(),
            field_of_view: derives_field_of_view(image.camera()),
            encoding: resolve_encoding(policy.compression, policy.line_order, policy.tile_size),
        },
    )
}

} // verus!
