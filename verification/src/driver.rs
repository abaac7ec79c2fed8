//! The driver: the four entry points that the host calls, and the state
//! that carries a session from one call to the next.
//!
//! A driver serves one image. It starts out uninitialised, is opened once,
//! receives tiles, is closed once and is then destroyed. Closing is done in
//! steps, because the denoiser and the encoder run outside: each step
//! returns what is to be done next, and the next step takes what came of it.

use vstd::prelude::*;
use crate::channels::{
    channel_map, force_float32, format_names, lemma_last_named_in_range, map_channels, Format,
    FLOAT32,
};
use crate::encoder::{encode_job, EncodeJob};
use crate::encoding::{
    compression_named, line_order_named, parse_compression, parse_line_order, parse_tile_size,
    tile_size_of, Compression,
};
use crate::error::DspyError;
use crate::image::{
    buffer_len, Camera, CameraView, EncodingPolicy, ImageData, ImageView, Tile,
};
use crate::params::{
    float_array_of, float_of, get_parameter_list, integer_array_of, integer_of, parameter_map,
    string_of, CParameterList, CParameterView, UserParameter,
};
use crate::postprocess::{begin, finish, optional_view, DenoiseJob};
use crate::sample::{clamped_unit, ONE};

verus! {

/// The handle that the driver gives out for its session. Zero stands for no handle.
pub const IMAGE_HANDLE: usize = 1;

/// The bit of the host's flag word that asks for tiles in scan-line order.
pub const WANTS_SCANLINE_ORDER: i32 = 1;

/// The size that is reported while there is no session.
pub const DEFAULT_WIDTH: u64 = 1920;

/// The size that is reported while there is no session.
pub const DEFAULT_HEIGHT: u64 = 1080;

/// Where the driver stands. It only ever moves forward.
#[derive(Clone, Copy, Debug, PartialEq, Eq, Structural)]
pub enum DriverState {
    Uninitialised,
    Open,
    Receiving,
    Closing,
    Destroyed,
}

/// Where post-processing stands. It only ever moves forward.
#[derive(Clone, Copy, Debug, PartialEq, Eq, Structural)]
pub enum PostState {
    Idle,
    Processing,
    Done,
}

impl DriverState {
    /// The place of the state in the order in which a driver passes through its states.
    pub open spec fn rank(self) -> nat {
        match self {
            DriverState::Uninitialised => 0,
            DriverState::Open => 1,
            DriverState::Receiving => 2,
            DriverState::Closing => 3,
            DriverState::Destroyed => 4,
        }
    }
}

impl PostState {
    /// The place of the state in the order in which post-processing passes through its states.
    pub open spec fn rank(self) -> nat {
        match self {
            PostState::Idle => 0,
            PostState::Processing => 1,
            PostState::Done => 2,
        }
    }
}

/// What the host asks in a query.
#[derive(Clone, Copy, Debug, PartialEq, Eq, Structural)]
pub enum QueryType {
    Size,
    Overwrite,
    Stop,
    Other,
}

/// The answer to a size query.
#[derive(Clone, Copy, Debug, PartialEq, Eq, Structural)]
pub struct SizeInfo {
    pub width: u64,
    pub height: u64,
    /// The pixel aspect ratio, a bit pattern.
    pub aspect_ratio: u32,
}

/// The answer to an overwrite query.
#[derive(Clone, Copy, Debug, PartialEq, Eq, Structural)]
pub struct OverwriteInfo {
    pub overwrite: u8,
    pub unused: u8,
}

/// The answer to a query.
#[derive(Clone, Copy, Debug, PartialEq, Eq, Structural)]
pub enum QueryAnswer {
    Size(SizeInfo),
    Overwrite(OverwriteInfo),
}

/// What opening a session has to report besides the session itself.
#[derive(Clone, Copy, Debug, PartialEq, Eq, Structural)]
pub struct OpenReport {
    pub image_handle: usize,
    /// A compression was named that is not known; ZIP is used.
    pub unknown_compression: bool,
    /// A line order was named that is not known; none is asked for.
    pub unknown_line_order: bool,
    /// The host announced that it associates alpha. Nothing depends on it.
    pub associate_alpha: bool,
}

/// What is to be done next while a session is closed.
#[derive(Debug)]
pub enum CloseAction {
    /// Run the denoiser and hand its output to [`denoiser_returned`].
    Denoise(DenoiseJob),
    /// Write the file and hand the outcome to [`encoder_returned`].
    Encode(EncodeJob),
    /// Return this code to the host.
    Finish(DspyError),
}

/// The driver.
#[derive(Debug)]
pub struct Driver {
    state: DriverState,
    post: PostState,
    image: Option<ImageData>,
}

/// The mathematical value of a [`Driver`].
pub struct DriverView {
    pub state: DriverState,
    pub post: PostState,
    pub image: Option<ImageView>,
}

impl DriverView {
    /// What holds of every driver at every moment.
    pub open spec fn wf(self) -> bool {
        match self.state {
            DriverState::Uninitialised => self.image.is_none() && self.post == PostState::Idle,
            DriverState::Open | DriverState::Receiving => {
                &&& self.image matches Some(image)
                &&& image.wf()
                &&& self.post == PostState::Idle
            },
            DriverState::Closing => {
                &&& self.image matches Some(image)
                &&& image.wf()
                &&& self.post != PostState::Idle
                &&& self.post == PostState::Processing ==> image.denoises()
                &&& self.post == PostState::Done ==> image.encodes()
            },
            DriverState::Destroyed => self.image.is_none() && self.post == PostState::Done,
        }
    }

    /// `later` is not a state that lies before this one: neither the driver
    /// nor post-processing has moved back.
    pub open spec fn precedes(self, later: DriverView) -> bool {
        self.state.rank() <= later.state.rank() && self.post.rank() <= later.post.rank()
    }

    /// The driver has asked for the denoiser to be run.
    pub open spec fn awaits_denoiser(self) -> bool {
        self.state == DriverState::Closing && self.post == PostState::Processing
    }

    /// The driver has asked for the file to be written.
    pub open spec fn awaits_encoder(self) -> bool {
        self.state == DriverState::Closing && self.post == PostState::Done
    }

    /// A call with this handle reaches the session: the handle is the one
    /// that was given out and the session is open or receiving.
    pub open spec fn accepts(self, image_handle: usize) -> bool {
        image_handle == IMAGE_HANDLE && (self.state == DriverState::Open || self.state
            == DriverState::Receiving)
    }
}

impl View for Driver {
    type V = DriverView;

    closed spec fn view(&self) -> DriverView {
        DriverView {
            state: self.state,
            post: self.post,
            image: match self.image {
                Some(image) => Some(image@),
                None => None,
            },
        }
    }
}

/// The camera that a parameter store describes.
pub open spec fn camera_of(store: Map<Seq<char>, CParameterView>) -> CameraView {
    CameraView {
        pixel_aspect: match float_of(store, "PixelAspectRatio"@) {
            Some(v) => v,
            None => ONE,
        },
        world_to_screen: float_array_of(store, "NP"@, 16),
        world_to_camera: float_array_of(store, "Nl"@, 16),
        near: float_of(store, "near"@),
        far: float_of(store, "far"@),
        renderer: string_of(store, "Software"@),
    }
}

/// The encoding policy that a parameter store describes.
pub open spec fn policy_of(store: Map<Seq<char>, CParameterView>) -> EncodingPolicy {
    EncodingPolicy {
        premultiply: match integer_of(store, "premultiply"@) {
            Some(v) => v != 0,
            None => true,
        },
        compression: match string_of(store, "compression"@) {
            Some(name) => match compression_named(name) {
                Some(c) => c,
                None => Compression::ZIP16,
            },
            None => Compression::ZIP16,
        },
        line_order: match string_of(store, "line_order"@) {
            Some(name) => line_order_named(name),
            None => None,
        },
        tile_size: match integer_array_of(store, "tile_size"@, 2) {
            Some(t) => tile_size_of(t[0], t[1]),
            None => None,
        },
    }
}

/// The blend factor that a parameter store describes.
pub open spec fn denoise_of(store: Map<Seq<char>, CParameterView>) -> u32 {
    clamped_unit(
        match float_of(store, "denoise"@) {
            Some(v) => v,
            None => ONE,
        },
    )
}

/// What opening with a parameter store reports.
pub open spec fn report_of(store: Map<Seq<char>, CParameterView>) -> OpenReport {
    OpenReport {
        image_handle: IMAGE_HANDLE,
        unknown_compression: string_of(store, "compression"@) matches Some(name)
            && compression_named(name).is_none(),
        unknown_line_order: string_of(store, "line_order"@) matches Some(name)
            && line_order_named(name).is_none(),
        associate_alpha: integer_of(store, "associatealpha"@) == Some(1i32),
    }
}

/// An image of this size with this many channels can be opened.
pub open spec fn openable(width: i32, height: i32, num_channels: nat) -> bool {
    width > 0 && height > 0 && num_channels > 0 && buffer_len(
        width as nat,
        height as nat,
        num_channels,
    ).is_some()
}

/// The session that opening creates.
pub open spec fn session_of(
    file_name: Seq<char>,
    width: i32,
    height: i32,
    names: Seq<Seq<char>>,
    store: Map<Seq<char>, CParameterView>,
) -> ImageView {
    ImageView {
        buffer: Seq::new((width * height * names.len()) as nat, |i: int| 0u32),
        write_cursor: 0,
        width: width as nat,
        height: height as nat,
        num_channels: names.len(),
        channels: channel_map(names),
        camera: camera_of(store),
        policy: policy_of(store),
        file_name,
        denoise: denoise_of(store),
        total_pixels: (width * height) as nat,
        finished_pixels: 0,
    }
}

/// The sixteen elements of a matrix.
fn matrix_of(elements: &Vec<u32>) -> (m: [u32; 16])
    requires
        elements.len() == 16,
    ensures
        m@ == elements@,
{
    let m = [
        elements[0],
        elements[1],
        elements[2],
        elements[3],
        elements[4],
        elements[5],
        elements[6],
        elements[7],
        elements[8],
        elements[9],
        elements[10],
        elements[11],
        elements[12],
        elements[13],
        elements[14],
        elements[15],
    ];
    proof {
        assert(m@ =~= elements@);
    }
    m
}

/// Reads the camera from the parameter store.
fn read_camera(list: &CParameterList) -> (camera: Camera)
    ensures
        camera@ == camera_of(list@),
{
    Camera {
        pixel_aspect: match list.get_float("PixelAspectRatio") {
            Some(v) => v,
            None => ONE,
        },
        world_to_screen: match list.get_float_array("NP", 16) {
            Some(m) => Some(matrix_of(m)),
            None => None,
        },
        world_to_camera: match list.get_float_array("Nl", 16) {
            Some(m) => Some(matrix_of(m)),
            None => None,
        },
        near: list.get_float("near"),
        far: list.get_float("far"),
        renderer: match list.get_string("Software") {
            Some(name) => Some(name.clone()),
            None => None,
        },
    }
}

/// Reads the encoding policy from the parameter store.
fn read_policy(list: &CParameterList) -> (policy: EncodingPolicy)
    ensures
        policy == policy_of(list@),
{
    EncodingPolicy {
        premultiply: match list.get_integer("premultiply") {
            Some(v) => v != 0,
            None => true,
        },
        compression: match list.get_string("compression") {
            Some(name) => match parse_compression(name.as_str()) {
                Some(c) => c,
                None => Compression::ZIP16,
            },
            None => Compression::ZIP16,
        },
        line_order: match list.get_string("line_order") {
            Some(name) => parse_line_order(name.as_str()),
            None => None,
        },
        tile_size: match list.get_integer_array("tile_size", 2) {
            Some(t) => parse_tile_size(t[0], t[1]),
            None => None,
        },
    }
}

/// Reads from the parameter store what opening has to report.
fn read_report(list: &CParameterList) -> (report: OpenReport)
    ensures
        report == report_of(list@),
{
    OpenReport {
        image_handle: IMAGE_HANDLE,
        unknown_compression: match list.get_string("compression") {
            Some(name) => parse_compression(name.as_str()).is_none(),
            None => false,
        },
        unknown_line_order: match list.get_string("line_order") {
            Some(name) => parse_line_order(name.as_str()).is_none(),
            None => false,
        },
        associate_alpha: match list.get_integer("associatealpha") {
            Some(v) => v == 1,
            None => false,
        },
    }
}

impl Driver {
    /// The driver is well formed: see [`DriverView::wf`].
    pub open spec fn wf(&self) -> bool {
        self@.wf()
    }

    /// A driver that has not been opened.
    pub fn new() -> (driver: Driver)
        ensures
            driver.wf(),
            driver@ == (DriverView {
                state: DriverState::Uninitialised,
                post: PostState::Idle,
                image: None,
            }),
    {
        Driver { state: DriverState::Uninitialised, post: PostState::Idle, image: None }
    }

    /// Where the driver stands.
    pub fn state(&self) -> (r: DriverState)
        ensures
            r == self@.state,
    {
        self.state
    }

    /// Where post-processing stands.
    pub fn post(&self) -> (r: PostState)
        ensures
            r == self@.post,
    {
        self.post
    }

    /// The session, while there is one.
    pub fn image(&self) -> (r: Option<&ImageData>)
        ensures
            match r {
                Some(image) => self@.image == Some(image@),
                None => self@.image.is_none(),
            },
    {
        self.image.as_ref()
    }

    /// Whether a call with this handle reaches the session.
    pub fn accepts(&self, image_handle: usize) -> (r: bool)
        ensures
            r == self@.accepts(image_handle),
    {
        image_handle == IMAGE_HANDLE && (self.state == DriverState::Open || self.state
            == DriverState::Receiving)
    }
}

/// Opens the session.
///
/// The call is refused with `BadParams`, and changes nothing, where the
/// driver has been opened before, where there is no file name, and where
/// the image has no pixels or no channels or more samples than a buffer can
/// hold. Otherwise the session is created from the parameters and the
/// declared channels, with a buffer of zeros; every declared channel is set
/// to 32-bit floating samples, and the host is asked for tiles in scan-line
/// order.
#[allow(non_snake_case)]
pub fn DspyImageOpen(
    driver: &mut Driver,
    output_filename: Option<&str>,
    width: i32,
    height: i32,
    parameter: &Vec<UserParameter>,
    format: &mut Vec<Format>,
    flag_stuff: &mut i32,
) -> (r: Result<OpenReport, DspyError>)
    requires
        old(driver).wf(),
    ensures
        final(driver).wf(),
        r.is_ok() <==> old(driver)@.state == DriverState::Uninitialised
            && output_filename.is_some() && openable(width, height, old(format).len() as nat),
        old(driver)@.precedes(final(driver)@),
        r matches Err(e) ==> e == DspyError::BadParams && final(driver)@ == old(driver)@
            && *final(format) == *old(format) && *final(flag_stuff) == *old(flag_stuff),
        r matches Ok(report) ==> {
            &&& report == report_of(parameter_map(parameter@))
            &&& final(driver)@ == (DriverView {
                state: DriverState::Open,
                post: PostState::Idle,
                image: Some(
                    session_of(
                        output_filename.unwrap()@,
                        width,
                        height,
                        format_names(old(format)@),
                        parameter_map(parameter@),
                    ),
                ),
            })
            &&& final(format).len() == old(format).len()
            &&& forall|i: int|
                0 <= i < final(format).len() ==> (#[trigger] final(format)[i]).type_ == FLOAT32
                    && final(format)[i].name == old(format)[i].name
            &&& *final(flag_stuff) == *old(flag_stuff) | WANTS_SCANLINE_ORDER
            &&& *final(flag_stuff) & WANTS_SCANLINE_ORDER == WANTS_SCANLINE_ORDER
        },
{
    if driver.state != DriverState::Uninitialised {
        return Err(DspyError::BadParams);
    }
    let file_name = match output_filename {
        Some(name) => String::from_str(name),
        None => {
            return Err(DspyError::BadParams);
        },
    };
    if width <= 0 || height <= 0 {
        return Err(DspyError::BadParams);
    }
    let list = get_parameter_list(parameter);
    let channels = map_channels(format);
    proof {
        let names = format_names(format@);
        lemma_last_named_in_range(names, "r"@);
        lemma_last_named_in_range(names, "a"@);
        lemma_last_named_in_range(names, "albedo.000.r"@);
        lemma_last_named_in_range(names, "N_world.000.x"@);
    }
    let denoise = match list.get_float("denoise") {
        Some(v) => v,
        None => ONE,
    };
    let image = match ImageData::new(
        file_name,
        width as usize,
        height as usize,
        format.len(),
        channels,
        read_camera(&list),
        read_policy(&list),
        denoise,
    ) {
        Some(image) => image,
        None => {
            return Err(DspyError::BadParams);
        },
    };
    let report = read_report(&list);
    force_float32(format);
    let flags: i32 = *flag_stuff;
    *flag_stuff = flags | WANTS_SCANLINE_ORDER;
    proof {
        assert((flags | 1i32) & 1i32 == 1i32) by (bit_vector);
        assert(image@.buffer =~= session_of(
            output_filename.unwrap()@,
            width,
            height,
            format_names(old(format)@),
            parameter_map(parameter@),
        ).buffer);
    }
    driver.image = Some(image);
    driver.state = DriverState::Open;
    Ok(report)
}

impl DriverView {
    /// The size that a size query is answered with: that of the session
    /// that the handle reaches or, without one, the default.
    pub open spec fn size(self, image_handle: usize) -> SizeInfo {
        if self.accepts(image_handle) {
            let image = self.image.unwrap();
            SizeInfo {
                width: image.width as u64,
                height: image.height as u64,
                aspect_ratio: image.camera.pixel_aspect,
            }
        } else {
            SizeInfo { width: DEFAULT_WIDTH, height: DEFAULT_HEIGHT, aspect_ratio: ONE }
        }
    }

    /// How a query is answered.
    pub open spec fn answer(
        self,
        image_handle: usize,
        query_type: QueryType,
        data_present: bool,
    ) -> Result<QueryAnswer, DspyError> {
        if !data_present && query_type != QueryType::Stop {
            Err(DspyError::BadParams)
        } else {
            match query_type {
                QueryType::Size => Ok(QueryAnswer::Size(self.size(image_handle))),
                QueryType::Overwrite => Ok(
                    QueryAnswer::Overwrite(OverwriteInfo { overwrite: 1, unused: 0 }),
                ),
                _ => Err(DspyError::Unsupported),
            }
        }
    }

    /// The number of samples that a tile of the given bounds has to come
    /// with, if the handle reaches a session and the tile can be taken.
    pub open spec fn expected_samples(
        self,
        image_handle: usize,
        x_min: i32,
        x_max_plus_one: i32,
        y_min: i32,
        y_max_plus_one: i32,
    ) -> Option<nat> {
        if self.accepts(image_handle) {
            self.image.unwrap().tile_len(x_min, x_max_plus_one, y_min, y_max_plus_one)
        } else {
            None
        }
    }

    /// How a tile is answered.
    pub open spec fn tile_verdict(
        self,
        image_handle: usize,
        x_min: i32,
        x_max_plus_one: i32,
        y_min: i32,
        y_max_plus_one: i32,
        data: Option<Seq<u32>>,
    ) -> DspyError {
        if !self.accepts(image_handle) {
            DspyError::BadParams
        } else {
            match data {
                Some(samples) => self.image.unwrap().tile_verdict(
                    x_min,
                    x_max_plus_one,
                    y_min,
                    y_max_plus_one,
                    samples.len(),
                ),
                None => DspyError::BadParams,
            }
        }
    }
}

/// The view of optional samples.
pub open spec fn samples_view(data: Option<&[u32]>) -> Option<Seq<u32>> {
    match data {
        Some(samples) => Some(samples@),
        None => None,
    }
}

/// Answers a query of the host.
///
/// A size query is answered with the size and the pixel aspect of the
/// session, or with the default while there is none; an overwrite query
/// with a yes. Other queries are not supported. A query that needs a place
/// for its answer and comes without one is refused.
#[allow(non_snake_case)]
pub fn DspyImageQuery(
    driver: &Driver,
    image_handle: usize,
    query_type: QueryType,
    data_present: bool,
) -> (r: Result<QueryAnswer, DspyError>)
    requires
        driver.wf(),
    ensures
        r == driver@.answer(image_handle, query_type, data_present),
{
    if !data_present && query_type != QueryType::Stop {
        return Err(DspyError::BadParams);
    }
    match query_type {
        QueryType::Size => {
            let size = match &driver.image {
                Some(image) if driver.accepts(image_handle) => SizeInfo {
                    width: image.width() as u64,
                    height: image.height() as u64,
                    aspect_ratio: image.camera().pixel_aspect,
                },
                _ => SizeInfo { width: DEFAULT_WIDTH, height: DEFAULT_HEIGHT, aspect_ratio: ONE },
            };
            Ok(QueryAnswer::Size(size))
        },
        QueryType::Overwrite => Ok(QueryAnswer::Overwrite(OverwriteInfo { overwrite: 1, unused: 0 })),
        _ => Err(DspyError::Unsupported),
    }
}

/// The number of samples that the host has to deliver with a tile of
/// these bounds, if the tile can be taken at all.
pub fn expected_samples(
    driver: &Driver,
    image_handle: usize,
    x_min: i32,
    x_max_plus_one: i32,
    y_min: i32,
    y_max_plus_one: i32,
) -> (r: Option<usize>)
    requires
        driver.wf(),
    ensures
        match r {
            Some(n) => driver@.expected_samples(
                image_handle,
                x_min,
                x_max_plus_one,
                y_min,
                y_max_plus_one,
            ) == Some(n as nat),
            None => driver@.expected_samples(
                image_handle,
                x_min,
                x_max_plus_one,
                y_min,
                y_max_plus_one,
            ).is_none(),
        },
{
    match &driver.image {
        Some(image) if driver.accepts(image_handle) => image.tile_samples(
            x_min,
            x_max_plus_one,
            y_min,
            y_max_plus_one,
        ),
        _ => None,
    }
}

/// Takes a tile.
///
/// The samples are appended to the buffer: those of the tile's pixels in
/// scan-line order, the channels of a pixel next to each other. The call is
/// refused with `BadParams` where the handle does not reach a session, where
/// there are no samples, where the bounds describe no rectangle and where
/// the samples are not those of a tile of these bounds; with `Undefined`
/// where the tile does not fit into what is left of the buffer. A refused
/// call changes nothing.
#[allow(non_snake_case)]
pub fn DspyImageData(
    driver: &mut Driver,
    image_handle: usize,
    x_min: i32,
    x_max_plus_one: i32,
    y_min: i32,
    y_max_plus_one: i32,
    _entry_size: i32,
    data: Option<&[u32]>,
) -> (r: DspyError)
    requires
        old(driver).wf(),
    ensures
        final(driver).wf(),
        r == old(driver)@.tile_verdict(
            image_handle,
            x_min,
            x_max_plus_one,
            y_min,
            y_max_plus_one,
            samples_view(data),
        ),
        r != DspyError::NoError ==> final(driver)@ == old(driver)@,
        r == DspyError::NoError ==> final(driver)@ == (DriverView {
            state: DriverState::Receiving,
            post: PostState::Idle,
            image: Some(
                old(driver)@.image.unwrap().after_tile(
                    Tile { x_min, x_max_plus_one, y_min, y_max_plus_one, samples: data.unwrap()@ },
                ),
            ),
        }),
        r == DspyError::NoError ==> old(driver)@.image.unwrap().advanced_to(
            final(driver)@.image.unwrap(),
        ),
        old(driver)@.precedes(final(driver)@),
{
    if !driver.accepts(image_handle) {
        return DspyError::BadParams;
    }
    let samples = match data {
        Some(samples) => samples,
        None => {
            return DspyError::BadParams;
        },
    };
    let r = match &mut driver.image {
        Some(image) => image.write_tile(x_min, x_max_plus_one, y_min, y_max_plus_one, samples),
        None => DspyError::BadParams,
    };
    if r == DspyError::NoError {
        driver.state = DriverState::Receiving;
    }
    r
}

impl DriverView {
    /// The driver after its session has been given up.
    pub open spec fn destroyed() -> DriverView {
        DriverView { state: DriverState::Destroyed, post: PostState::Done, image: None }
    }

    /// The driver while its session, now `image`, is being closed.
    pub open spec fn closing(post: PostState, image: ImageView) -> DriverView {
        DriverView { state: DriverState::Closing, post, image: Some(image) }
    }
}

/// What follows post-processing: the file is written where colour and
/// alpha are mapped; otherwise the session ends without one.
fn after_post_process(driver: &mut Driver) -> (r: CloseAction)
    requires
        old(driver)@.image matches Some(image) && image.wf(),
    ensures
        final(driver).wf(),
        match r {
            CloseAction::Encode(job) => {
                &&& old(driver)@.image matches Some(image)
                &&& image.encodes()
                &&& image.encode_input(job)
                &&& final(driver)@ == DriverView::closing(PostState::Done, image)
            },
            CloseAction::Finish(e) => {
                &&& old(driver)@.image matches Some(image)
                &&& !image.encodes()
                &&& e == DspyError::NoError
                &&& final(driver)@ == DriverView::destroyed()
            },
            CloseAction::Denoise(_) => false,
        },
{
    let job = match &driver.image {
        Some(image) => encode_job(image),
        None => None,
    };
    driver.post = PostState::Done;
    match job {
        Some(job) => {
            driver.state = DriverState::Closing;
            CloseAction::Encode(job)
        },
        None => {
            driver.state = DriverState::Destroyed;
            driver.image = None;
            CloseAction::Finish(DspyError::NoError)
        },
    }
}

/// Closes the session: the first step.
///
/// A handle that does not reach a session is answered with `BadParams`,
/// and nothing changes. Otherwise the first half of post-processing is
/// done, see [`begin`], and the next action is returned: to run the
/// denoiser; or, where it is not to be run, to write the file; or, where
/// colour or alpha is not mapped and no file is written, to return to the
/// host without an error. In the last case the session is given up.
///
/// `unassociate` divides a colour sample by the alpha of its pixel.
#[allow(non_snake_case)]
pub fn DspyImageClose<U: Fn(u32, u32) -> u32>(
    driver: &mut Driver,
    image_handle: usize,
    unassociate: &U,
) -> (r: CloseAction)
    requires
        old(driver).wf(),
        forall|c: u32, a: u32| unassociate.requires((c, a)),
    ensures
        final(driver).wf(),
        old(driver)@.precedes(final(driver)@),
        !old(driver)@.accepts(image_handle) ==> r == CloseAction::Finish(DspyError::BadParams)
            && final(driver)@ == old(driver)@,
        old(driver)@.accepts(image_handle) ==> {
            let before = old(driver)@.image.unwrap();
            match r {
                CloseAction::Denoise(job) => {
                    &&& before.denoises()
                    &&& final(driver)@.image matches Some(after)
                    &&& after == (ImageView { buffer: after.buffer, ..before })
                    &&& before.begun(after.buffer, *unassociate)
                    &&& after.denoise_input(job)
                    &&& final(driver)@ == DriverView::closing(PostState::Processing, after)
                },
                CloseAction::Encode(job) => {
                    &&& !before.denoises()
                    &&& before.encodes()
                    &&& final(driver)@.image matches Some(after)
                    &&& after == (ImageView { buffer: after.buffer, ..before })
                    &&& before.begun(after.buffer, *unassociate)
                    &&& after.encode_input(job)
                    &&& final(driver)@ == DriverView::closing(PostState::Done, after)
                },
                CloseAction::Finish(e) => {
                    &&& !before.denoises()
                    &&& !before.encodes()
                    &&& e == DspyError::NoError
                    &&& final(driver)@ == DriverView::destroyed()
                },
            }
        },
{
    if !driver.accepts(image_handle) {
        return CloseAction::Finish(DspyError::BadParams);
    }
    let job = match &mut driver.image {
        Some(image) => begin(image, unassociate),
        None => None,
    };
    match job {
        Some(job) => {
            driver.state = DriverState::Closing;
            driver.post = PostState::Processing;
            CloseAction::Denoise(job)
        },
        None => after_post_process(driver),
    }
}

/// Closes the session: the step after the denoiser has run.
///
/// `denoised` is the denoiser's output, or nothing where it failed. The
/// second half of post-processing is done, see [`finish`], and the next
/// action is returned: to write the file or, where alpha is not mapped and
/// no file is written, to return to the host without an error. A call that
/// no denoiser was asked for before is answered with `BadParams`, and
/// nothing changes.
///
/// `mix` blends a colour sample with the denoised one, `associate`
/// multiplies a colour sample by the alpha of its pixel.
pub fn denoiser_returned<M: Fn(u32, u32, u32) -> u32, A: Fn(u32, u32) -> u32>(
    driver: &mut Driver,
    denoised: Option<Vec<u32>>,
    mix: &M,
    associate: &A,
) -> (r: CloseAction)
    requires
        old(driver).wf(),
        forall|x: u32, y: u32, b: u32| mix.requires((x, y, b)),
        forall|c: u32, a: u32| associate.requires((c, a)),
    ensures
        final(driver).wf(),
        old(driver)@.precedes(final(driver)@),
        !old(driver)@.awaits_denoiser() ==> r == CloseAction::Finish(DspyError::BadParams)
            && final(driver)@ == old(driver)@,
        old(driver)@.awaits_denoiser() ==> {
            let before = old(driver)@.image.unwrap();
            exists|mid: Seq<u32>, after: Seq<u32>|
                {
                    &&& #[trigger] before.finished(
                        mid,
                        after,
                        optional_view(denoised),
                        *mix,
                        *associate,
                    )
                    &&& match r {
                        CloseAction::Encode(job) => {
                            &&& before.encodes()
                            &&& (ImageView { buffer: after, ..before }).encode_input(job)
                            &&& final(driver)@ == DriverView::closing(
                                PostState::Done,
                                ImageView { buffer: after, ..before },
                            )
                        },
                        CloseAction::Finish(e) => {
                            &&& !before.encodes()
                            &&& e == DspyError::NoError
                            &&& final(driver)@ == DriverView::destroyed()
                        },
                        CloseAction::Denoise(_) => false,
                    }
                }
        },
{
    if !(driver.state == DriverState::Closing && driver.post == PostState::Processing) {
        return CloseAction::Finish(DspyError::BadParams);
    }
    let ghost before = driver@.image.unwrap();
    let ghost denoised_view = optional_view(denoised);
    match &mut driver.image {
        Some(image) => {
            finish(image, denoised, mix, associate);
        },
        None => {},
    }
    let ghost after = driver@.image.unwrap().buffer;
    let ghost mid = choose|mid: Seq<u32>| #[trigger]
        before.finished(mid, after, denoised_view, *mix, *associate);
    let r = after_post_process(driver);
    proof {
        assert(before.finished(mid, after, denoised_view, *mix, *associate));
    }
    r
}

/// Closes the session: the step after the encoder has run.
///
/// The session is given up. The host is answered without an error where
/// the file was written and with `Undefined` where it was not. A call that
/// no file was asked for before is answered with `BadParams`, and nothing
/// changes.
pub fn encoder_returned(driver: &mut Driver, written: bool) -> (r: DspyError)
    requires
        old(driver).wf(),
    ensures
        final(driver).wf(),
        r == if !old(driver)@.awaits_encoder() {
            DspyError::BadParams
        } else if written {
            DspyError::NoError
        } else {
            DspyError::Undefined
        },
        old(driver)@.precedes(final(driver)@),
        final(driver)@ == if old(driver)@.awaits_encoder() {
            DriverView::destroyed()
        } else {
            old(driver)@
        },
{
    if !(driver.state == DriverState::Closing && driver.post == PostState::Done) {
        return DspyError::BadParams;
    }
    driver.state = DriverState::Destroyed;
    driver.image = None;
    if written {
        DspyError::NoError
    } else {
        DspyError::Undefined
    }
}

} // verus!
