//! The image session: the buffer that the tiles are assembled in, with what
//! the driver knows about the image.

use vstd::prelude::*;
use crate::channels::ChannelMap;
use crate::encoding::{Compression, LineOrder, TileSize};
use crate::error::DspyError;
use crate::pixels::{
    blend_colour, colour_blended, colour_replaced, colour_scaled, gather, planar_of, sample_index,
    scale_colour, scatter, lemma_sample_index,
};
use crate::sample::{clamp_unit, clamped_unit, is_unit};

verus! {

/// What is known of the camera and the renderer, for the file's attributes.
/// Floating values are bit patterns; the matrices have sixteen elements.
#[derive(Debug)]
pub struct Camera {
    pub pixel_aspect: u32,
    pub world_to_screen: Option<[u32; 16]>,
    pub world_to_camera: Option<[u32; 16]>,
    pub near: Option<u32>,
    pub far: Option<u32>,
    pub renderer: Option<String>,
}

/// The mathematical value of a [`Camera`].
pub struct CameraView {
    pub pixel_aspect: u32,
    pub world_to_screen: Option<Seq<u32>>,
    pub world_to_camera: Option<Seq<u32>>,
    pub near: Option<u32>,
    pub far: Option<u32>,
    pub renderer: Option<Seq<char>>,
}

impl View for Camera {
    type V = CameraView;

    open spec fn view(&self) -> CameraView {
        CameraView {
            pixel_aspect: self.pixel_aspect,
            world_to_screen: match self.world_to_screen {
                Some(m) => Some(m@),
                None => None,
            },
            world_to_camera: match self.world_to_camera {
                Some(m) => Some(m@),
                None => None,
            },
            near: self.near,
            far: self.far,
            renderer: match self.renderer {
                Some(name) => Some(name@),
                None => None,
            },
        }
    }
}

impl Camera {
    /// A copy of the camera.
    pub fn duplicate(&self) -> (r: Camera)
        ensures
            r@ == self@,
    {
        Camera {
            pixel_aspect: self.pixel_aspect,
            world_to_screen: self.world_to_screen,
            world_to_camera: self.world_to_camera,
            near: self.near,
            far: self.far,
            renderer: match &self.renderer {
                Some(name) => Some(name.clone()),
                None => None,
            },
        }
    }
}

/// How the samples are to be written.
#[derive(Clone, Copy, Debug, PartialEq, Eq, Structural)]
pub struct EncodingPolicy {
    /// Whether the file holds colour multiplied by alpha.
    pub premultiply: bool,
    pub compression: Compression,
    pub line_order: Option<LineOrder>,
    pub tile_size: Option<TileSize>,
}

/// One image session.
#[derive(Debug)]
pub struct ImageData {
    data: Vec<u32>,
    offset: usize,
    width: usize,
    height: usize,
    num_channels: usize,
    channels: ChannelMap,
    camera: Camera,
    policy: EncodingPolicy,
    file_name: String,
    denoise: u32,
    total_pixels: usize,
    finished_pixels: usize,
}

/// The mathematical value of an [`ImageData`].
pub struct ImageView {
    /// The samples, pixel after pixel in scan-line order, the channels of a
    /// pixel next to each other.
    pub buffer: Seq<u32>,
    /// Where in `buffer` the next tile goes.
    pub write_cursor: nat,
    pub width: nat,
    pub height: nat,
    pub num_channels: nat,
    pub channels: ChannelMap,
    pub camera: CameraView,
    pub policy: EncodingPolicy,
    pub file_name: Seq<char>,
    /// How much of the denoised colour goes into the result, a pattern of the unit interval.
    pub denoise: u32,
    pub total_pixels: nat,
    pub finished_pixels: nat,
}

impl ImageView {
    /// What holds of every session at every moment.
    pub open spec fn wf(self) -> bool {
        &&& self.width > 0
        &&& self.height > 0
        &&& self.num_channels > 0
        &&& self.total_pixels == self.width * self.height
        &&& self.buffer.len() == self.width * self.height * self.num_channels
        &&& self.write_cursor == self.finished_pixels * self.num_channels
        &&& self.write_cursor <= self.buffer.len()
        &&& self.finished_pixels <= self.total_pixels
        &&& is_unit(self.denoise)
        &&& self.channels.inside(self.num_channels)
    }
}

impl View for ImageData {
    type V = ImageView;

    closed spec fn view(&self) -> ImageView {
        ImageView {
            buffer: self.data@,
            write_cursor: self.offset as nat,
            width: self.width as nat,
            height: self.height as nat,
            num_channels: self.num_channels as nat,
            channels: self.channels,
            camera: self.camera@,
            policy: self.policy,
            file_name: self.file_name@,
            denoise: self.denoise,
            total_pixels: self.total_pixels as nat,
            finished_pixels: self.finished_pixels as nat,
        }
    }
}

/// The number of samples of an image, where a buffer can hold that many.
pub open spec fn buffer_len(width: nat, height: nat, num_channels: nat) -> Option<nat> {
    if width * height * num_channels <= usize::MAX {
        Some(width * height * num_channels)
    } else {
        None
    }
}

/// A product does not shrink when it is multiplied by a positive factor.
proof fn lemma_product_bounds(a: nat, b: nat, c: nat)
    by (nonlinear_arith)
    requires
        c > 0,
    ensures
        a * b <= a * b * c,
{
}

impl ImageData {
    /// The session is well formed: see [`ImageView::wf`].
    pub open spec fn wf(&self) -> bool {
        self@.wf()
    }

    /// Starts a session with a buffer of zeros.
    ///
    /// There is no session for an image without pixels or channels, for one
    /// whose samples cannot be counted in a `usize`, or for a channel map
    /// that points outside a pixel.
    pub fn new(
        file_name: String,
        width: usize,
        height: usize,
        num_channels: usize,
        channels: ChannelMap,
        camera: Camera,
        policy: EncodingPolicy,
        denoise: u32,
    ) -> (r: Option<ImageData>)
        ensures
            r.is_some() <==> width > 0 && height > 0 && num_channels > 0 && channels.inside(
                num_channels as nat,
            ) && buffer_len(width as nat, height as nat, num_channels as nat).is_some(),
            r matches Some(image) ==> image.wf() && image@ == (ImageView {
                buffer: Seq::new(
                    buffer_len(width as nat, height as nat, num_channels as nat).unwrap(),
                    |i: int| 0u32,
                ),
                write_cursor: 0,
                width: width as nat,
                height: height as nat,
                num_channels: num_channels as nat,
                channels,
                camera: camera@,
                policy,
                file_name: file_name@,
                denoise: clamped_unit(denoise),
                total_pixels: (width * height) as nat,
                finished_pixels: 0,
            }),
    {
        if width == 0 || height == 0 || num_channels == 0 || !channels.is_inside(num_channels) {
            return None;
        }
        proof {
            lemma_product_bounds(width as nat, height as nat, num_channels as nat);
        }
        let total_pixels = match width.checked_mul(height) {
            Some(n) => n,
            None => {
                return None;
            },
        };
        let len = match total_pixels.checked_mul(num_channels) {
            Some(n) => n,
            None => {
                return None;
            },
        };
        let data: Vec<u32> = vec![0u32; len];
        proof {
            assert(data@ =~= Seq::new(len as nat, |i: int| 0u32));
            assert(0 * num_channels == 0) by (nonlinear_arith);
        }
        Some(
            ImageData {
                data,
                offset: 0,
                width,
                height,
                num_channels,
                channels,
                camera,
                policy,
                file_name,
                denoise: clamp_unit(denoise),
                total_pixels,
                finished_pixels: 0,
            },
        )
    }
}

/// The number of pixels of a tile, where its bounds describe a rectangle.
pub open spec fn tile_pixels(x_min: i32, x_max_plus_one: i32, y_min: i32, y_max_plus_one: i32) -> int {
    (x_max_plus_one - x_min) * (y_max_plus_one - y_min)
}

impl ImageView {
    /// Where the colour of a pixel starts, if colour is mapped and its
    /// three channels lie inside the pixel.
    pub open spec fn rgb_slot(self) -> Option<usize> {
        match self.channels.rgb_index {
            Some(i) => if i + 3 <= self.num_channels {
                Some(i)
            } else {
                None
            },
            None => None,
        }
    }

    /// Where the albedo of a pixel starts, if it is mapped and lies inside the pixel.
    pub open spec fn albedo_slot(self) -> Option<usize> {
        match self.channels.albedo_index {
            Some(i) => if i + 3 <= self.num_channels {
                Some(i)
            } else {
                None
            },
            None => None,
        }
    }

    /// Where the normal of a pixel starts, if it is mapped and lies inside the pixel.
    pub open spec fn normal_slot(self) -> Option<usize> {
        match self.channels.normal_index {
            Some(i) => if i + 3 <= self.num_channels {
                Some(i)
            } else {
                None
            },
            None => None,
        }
    }

    /// How a tile of the given bounds that comes with `samples` samples is answered.
    pub open spec fn tile_verdict(
        self,
        x_min: i32,
        x_max_plus_one: i32,
        y_min: i32,
        y_max_plus_one: i32,
        samples: nat,
    ) -> DspyError {
        let pixels = tile_pixels(x_min, x_max_plus_one, y_min, y_max_plus_one);
        if x_max_plus_one < x_min || y_max_plus_one < y_min {
            DspyError::BadParams
        } else if self.write_cursor + self.num_channels * pixels > self.buffer.len() {
            DspyError::Undefined
        } else if samples != self.num_channels * pixels {
            DspyError::BadParams
        } else {
            DspyError::NoError
        }
    }

    /// The number of samples that a tile of the given bounds has to come
    /// with, if its bounds describe a rectangle that fits into what is left
    /// of the buffer.
    pub open spec fn tile_len(
        self,
        x_min: i32,
        x_max_plus_one: i32,
        y_min: i32,
        y_max_plus_one: i32,
    ) -> Option<nat> {
        let pixels = tile_pixels(x_min, x_max_plus_one, y_min, y_max_plus_one);
        if x_max_plus_one < x_min || y_max_plus_one < y_min || self.write_cursor
            + self.num_channels * pixels > self.buffer.len() {
            None
        } else {
            Some((self.num_channels * pixels) as nat)
        }
    }

    /// The session after a tile of `pixels` pixels with the given samples was appended.
    pub open spec fn with_tile(self, pixels: nat, samples: Seq<u32>) -> ImageView {
        ImageView {
            buffer: self.buffer.subrange(0, self.write_cursor as int) + samples
                + self.buffer.subrange(
                (self.write_cursor + samples.len()) as int,
                self.buffer.len() as int,
            ),
            write_cursor: self.write_cursor + samples.len(),
            finished_pixels: self.finished_pixels + pixels,
            ..self
        }
    }

    /// `after` is the buffer with colour divided by alpha: where colour and
    /// alpha are mapped, `unassociate` has rewritten the colour of every
    /// pixel whose alpha is not zero.
    pub open spec fn unpremultiplied<F: Fn(u32, u32) -> u32>(
        self,
        after: Seq<u32>,
        unassociate: F,
    ) -> bool {
        match (self.rgb_slot(), self.channels.alpha_index) {
            (Some(rgb), Some(alpha)) => colour_scaled(
                unassociate,
                self.buffer,
                after,
                self.total_pixels as int,
                self.num_channels as int,
                rgb as int,
                alpha as int,
                true,
            ),
            _ => after == self.buffer,
        }
    }

    /// `after` is the buffer with colour multiplied by alpha: where colour
    /// and alpha are mapped, `associate` has rewritten the colour of every pixel.
    pub open spec fn premultiplied<F: Fn(u32, u32) -> u32>(
        self,
        after: Seq<u32>,
        associate: F,
    ) -> bool {
        match (self.rgb_slot(), self.channels.alpha_index) {
            (Some(rgb), Some(alpha)) => colour_scaled(
                associate,
                self.buffer,
                after,
                self.total_pixels as int,
                self.num_channels as int,
                rgb as int,
                alpha as int,
                false,
            ),
            _ => after == self.buffer,
        }
    }
}

/// A tile as the host delivers it.
pub struct Tile {
    pub x_min: i32,
    pub x_max_plus_one: i32,
    pub y_min: i32,
    pub y_max_plus_one: i32,
    pub samples: Seq<u32>,
}

impl ImageView {
    /// The session after a tile was delivered: with the tile appended where
    /// it is taken, unchanged where it is refused.
    pub open spec fn after_tile(self, tile: Tile) -> ImageView {
        if self.tile_verdict(
            tile.x_min,
            tile.x_max_plus_one,
            tile.y_min,
            tile.y_max_plus_one,
            tile.samples.len(),
        ) == DspyError::NoError {
            self.with_tile(
                tile_pixels(tile.x_min, tile.x_max_plus_one, tile.y_min, tile.y_max_plus_one) as nat,
                tile.samples,
            )
        } else {
            self
        }
    }

    /// The session after a sequence of tiles was delivered.
    pub open spec fn after_tiles(self, tiles: Seq<Tile>) -> ImageView
        decreases tiles.len(),
    {
        if tiles.len() == 0 {
            self
        } else {
            self.after_tiles(tiles.drop_last()).after_tile(tiles.last())
        }
    }

    /// `later` is this session with more of its buffer filled: the buffer
    /// is as long as it was, the cursor and the count of finished pixels
    /// have not moved back, and nothing else has changed.
    pub open spec fn advanced_to(self, later: ImageView) -> bool {
        &&& later == (ImageView {
            buffer: later.buffer,
            write_cursor: later.write_cursor,
            finished_pixels: later.finished_pixels,
            ..self
        })
        &&& later.buffer.len() == self.buffer.len()
        &&& self.write_cursor <= later.write_cursor
        &&& self.finished_pixels <= later.finished_pixels
    }
}

/// In every session the buffer holds one sample for each channel of each
/// pixel, the cursor lies inside the buffer, and no more pixels are
/// finished than the image has.
pub proof fn lemma_session_bounds(image: ImageView)
    requires
        image.wf(),
    ensures
        image.buffer.len() == image.width * image.height * image.num_channels,
        image.write_cursor <= image.buffer.len(),
        image.finished_pixels <= image.total_pixels,
{
}

/// A tile, taken or refused, leaves a session a session; the buffer keeps
/// its length, and neither the cursor nor the count of finished pixels
/// moves back.
pub proof fn lemma_tile_advances(image: ImageView, tile: Tile)
    requires
        image.wf(),
    ensures
        image.after_tile(tile).wf(),
        image.advanced_to(image.after_tile(tile)),
{
    let after = image.after_tile(tile);
    if after != image {
        let dx = tile.x_max_plus_one - tile.x_min;
        let dy = tile.y_max_plus_one - tile.y_min;
        lemma_product_le(dx, dy, dx, dy);
        let pixels = tile_pixels(tile.x_min, tile.x_max_plus_one, tile.y_min, tile.y_max_plus_one);
        lemma_tile_fits(
            image.finished_pixels,
            pixels as nat,
            image.total_pixels,
            image.num_channels,
        );
    }
}

/// A tile that is taken lies in the buffer where the cursor stood, sample
/// for sample, and what lay before the cursor stays: no later tile
/// overwrites an earlier one.
pub proof fn lemma_tile_kept(image: ImageView, tile: Tile)
    requires
        image.wf(),
        image.tile_verdict(
            tile.x_min,
            tile.x_max_plus_one,
            tile.y_min,
            tile.y_max_plus_one,
            tile.samples.len(),
        ) == DspyError::NoError,
    ensures
        forall|i: int|
            0 <= i < tile.samples.len() ==> image.after_tile(tile).buffer[image.write_cursor + i]
                == #[trigger] tile.samples[i],
        forall|i: int|
            0 <= i < image.write_cursor ==> #[trigger] image.after_tile(tile).buffer[i]
                == image.buffer[i],
{
    lemma_tile_advances(image, tile);
}

/// What holds of one tile holds of every sequence of tiles.
pub proof fn lemma_tiles_advance(image: ImageView, tiles: Seq<Tile>)
    requires
        image.wf(),
    ensures
        image.after_tiles(tiles).wf(),
        image.advanced_to(image.after_tiles(tiles)),
    decreases tiles.len(),
{
    if tiles.len() > 0 {
        lemma_tiles_advance(image, tiles.drop_last());
        lemma_tile_advances(image.after_tiles(tiles.drop_last()), tiles.last());
    }
}

/// With a positive number of channels, samples fit where pixels fit.
proof fn lemma_tile_fits(finished: nat, pixels: nat, total: nat, num_channels: nat)
    by (nonlinear_arith)
    requires
        num_channels > 0,
    ensures
        (finished * num_channels + num_channels * pixels > total * num_channels) <==> (finished
            + pixels > total),
        finished * num_channels + num_channels * pixels == (finished + pixels) * num_channels,
        num_channels * pixels == pixels * num_channels,
{
}

/// The product of two bounded factors is bounded by the product of the bounds.
proof fn lemma_product_le(a: int, b: int, x: int, y: int)
    by (nonlinear_arith)
    requires
        0 <= a <= x,
        0 <= b <= y,
    ensures
        0 <= a * b <= x * y,
{
}

impl ImageData {
    /// The first colour channel, if colour is mapped and lies inside the pixel.
    pub fn rgb_slot(&self) -> (r: Option<usize>)
        requires
            self.wf(),
        ensures
            r == self@.rgb_slot(),
    {
        match self.channels.rgb_index {
            Some(i) => if self.num_channels - i >= 3 {
                Some(i)
            } else {
                None
            },
            None => None,
        }
    }

    /// The first albedo channel, if albedo is mapped and lies inside the pixel.
    pub fn albedo_slot(&self) -> (r: Option<usize>)
        requires
            self.wf(),
        ensures
            r == self@.albedo_slot(),
    {
        match self.channels.albedo_index {
            Some(i) => if self.num_channels - i >= 3 {
                Some(i)
            } else {
                None
            },
            None => None,
        }
    }

    /// The first normal channel, if the normal is mapped and lies inside the pixel.
    pub fn normal_slot(&self) -> (r: Option<usize>)
        requires
            self.wf(),
        ensures
            r == self@.normal_slot(),
    {
        match self.channels.normal_index {
            Some(i) => if self.num_channels - i >= 3 {
                Some(i)
            } else {
                None
            },
            None => None,
        }
    }

    /// The number of pixels of a tile, if its bounds describe a rectangle
    /// whose samples fit into what is left of the buffer.
    fn tile_room(&self, x_min: i32, x_max_plus_one: i32, y_min: i32, y_max_plus_one: i32) -> (r:
        Result<usize, DspyError>)
        requires
            self.wf(),
        ensures
            match r {
                Ok(pixels) => x_min <= x_max_plus_one && y_min <= y_max_plus_one && pixels
                    == tile_pixels(x_min, x_max_plus_one, y_min, y_max_plus_one)
                    && self@.write_cursor + self@.num_channels * pixels <= self@.buffer.len()
                    && self@.finished_pixels + pixels <= self@.total_pixels,
                Err(e) => e != DspyError::NoError && self@.tile_len(
                    x_min,
                    x_max_plus_one,
                    y_min,
                    y_max_plus_one,
                ).is_none() && forall|n: nat|
                    e == #[trigger] self@.tile_verdict(
                        x_min,
                        x_max_plus_one,
                        y_min,
                        y_max_plus_one,
                        n,
                    ),
            },
    {
        if x_max_plus_one < x_min || y_max_plus_one < y_min {
            return Err(DspyError::BadParams);
        }
        let dx: u64 = (x_max_plus_one as i64 - x_min as i64) as u64;
        let dy: u64 = (y_max_plus_one as i64 - y_min as i64) as u64;
        proof {
            lemma_product_le(dx as int, dy as int, 0xffff_ffff, 0xffff_ffff);
            assert(0xffff_ffffint * 0xffff_ffffint == 0xffff_fffe_0000_0001int) by (nonlinear_arith);
        }
        let pixels: u64 = dx * dy;
        let remaining: usize = self.total_pixels - self.finished_pixels;
        proof {
            lemma_tile_fits(
                self.finished_pixels as nat,
                pixels as nat,
                self.total_pixels as nat,
                self.num_channels as nat,
            );
            assert(self@.buffer.len() == self@.total_pixels * self@.num_channels);
        }
        if pixels > remaining as u64 {
            return Err(DspyError::Undefined);
        }
        Ok(pixels as usize)
    }

    /// The number of samples that a tile of the given bounds has to come with.
    ///
    /// There is none where the bounds describe no rectangle or the tile does
    /// not fit into what is left of the buffer.
    pub fn tile_samples(
        &self,
        x_min: i32,
        x_max_plus_one: i32,
        y_min: i32,
        y_max_plus_one: i32,
    ) -> (r: Option<usize>)
        requires
            self.wf(),
        ensures
            match r {
                Some(n) => self@.tile_len(x_min, x_max_plus_one, y_min, y_max_plus_one) == Some(
                    n as nat,
                ),
                None => self@.tile_len(x_min, x_max_plus_one, y_min, y_max_plus_one).is_none(),
            },
    {
        match self.tile_room(x_min, x_max_plus_one, y_min, y_max_plus_one) {
            Ok(pixels) => {
                proof {
                    lemma_tile_fits(
                        self.finished_pixels as nat,
                        pixels as nat,
                        self.total_pixels as nat,
                        self.num_channels as nat,
                    );
                    assert(self@.num_channels * pixels == pixels * self.num_channels);
                    assert(pixels * self.num_channels <= self.data.len());
                }
                Some(pixels * self.num_channels)
            },
            Err(_) => None,
        }
    }

    /// Appends a tile to the buffer.
    ///
    /// The samples are copied to where the last tile ended, and the cursor
    /// and the count of finished pixels move on. Nothing changes where the
    /// tile is refused.
    pub fn write_tile(
        &mut self,
        x_min: i32,
        x_max_plus_one: i32,
        y_min: i32,
        y_max_plus_one: i32,
        data: &[u32],
    ) -> (r: DspyError)
        requires
            old(self).wf(),
        ensures
            final(self).wf(),
            r == old(self)@.tile_verdict(
                x_min,
                x_max_plus_one,
                y_min,
                y_max_plus_one,
                data@.len(),
            ),
            final(self)@ == old(self)@.after_tile(
                Tile { x_min, x_max_plus_one, y_min, y_max_plus_one, samples: data@ },
            ),
            old(self)@.advanced_to(final(self)@),
    {
        let pixels = match self.tile_room(x_min, x_max_plus_one, y_min, y_max_plus_one) {
            Ok(pixels) => pixels,
            Err(e) => {
                return e;
            },
        };
        proof {
            lemma_tile_fits(
                self.finished_pixels as nat,
                pixels as nat,
                self.total_pixels as nat,
                self.num_channels as nat,
            );
        }
        proof {
            assert(self@.num_channels * pixels == pixels * self.num_channels);
            assert(pixels * self.num_channels <= self.data.len());
        }
        let n: usize = pixels * self.num_channels;
        if data.len() != n {
            return DspyError::BadParams;
        }
        let start: usize = self.offset;
        let mut i: usize = 0;
        while i < n
            invariant
                i <= n,
                n == data@.len(),
                start + n <= self.data.len(),
                self.data.len() == old(self).data.len(),
                forall|j: int| 0 <= j < start ==> self.data[j] == old(self).data[j],
                forall|j: int| start <= j < start + i ==> self.data[j] == data[j - start],
                forall|j: int| start + i <= j < self.data.len() ==> self.data[j] == old(self).data[j],
                self.offset == old(self).offset,
                self.width == old(self).width,
                self.height == old(self).height,
                self.num_channels == old(self).num_channels,
                self.channels == old(self).channels,
                self.camera == old(self).camera,
                self.policy == old(self).policy,
                self.file_name == old(self).file_name,
                self.denoise == old(self).denoise,
                self.total_pixels == old(self).total_pixels,
                self.finished_pixels == old(self).finished_pixels,
            decreases n - i,
        {
            self.data.set(start + i, data[i]);
            i += 1;
        }
        self.offset = start + n;
        self.finished_pixels = self.finished_pixels + pixels;
        proof {
            assert(self@.buffer =~= old(self)@.with_tile(pixels as nat, data@).buffer);
        }
        DspyError::NoError
    }

    /// Divides colour by alpha in every pixel whose alpha is not zero.
    ///
    /// `unassociate` is given a colour sample and the alpha of its pixel.
    /// Nothing is done where colour or alpha is not mapped.
    pub fn unpremultiply<F: Fn(u32, u32) -> u32>(&mut self, unassociate: &F)
        requires
            old(self).wf(),
            forall|c: u32, a: u32| unassociate.requires((c, a)),
        ensures
            final(self).wf(),
            final(self)@ == (ImageView { buffer: final(self)@.buffer, ..old(self)@ }),
            old(self)@.unpremultiplied(final(self)@.buffer, *unassociate),
    {
        if let (Some(alpha), Some(rgb)) = (self.channels.alpha_index, self.rgb_slot()) {
            scale_colour(
                &mut self.data,
                self.total_pixels,
                self.num_channels,
                rgb,
                alpha,
                true,
                unassociate,
            );
        }
    }

    /// Multiplies colour by alpha in every pixel.
    ///
    /// `associate` is given a colour sample and the alpha of its pixel.
    /// Nothing is done where colour or alpha is not mapped.
    pub fn premultiply<F: Fn(u32, u32) -> u32>(&mut self, associate: &F)
        requires
            old(self).wf(),
            forall|c: u32, a: u32| associate.requires((c, a)),
        ensures
            final(self).wf(),
            final(self)@ == (ImageView { buffer: final(self)@.buffer, ..old(self)@ }),
            old(self)@.premultiplied(final(self)@.buffer, *associate),
    {
        if let (Some(alpha), Some(rgb)) = (self.channels.alpha_index, self.rgb_slot()) {
            scale_colour(
                &mut self.data,
                self.total_pixels,
                self.num_channels,
                rgb,
                alpha,
                false,
                associate,
            );
        }
    }
}

impl ImageView {
    /// The four samples of the pixel in column `x` of row `y` that go into
    /// the file: red, green, blue and alpha.
    pub open spec fn rgba(self, x: int, y: int) -> Option<Seq<u32>> {
        match (self.rgb_slot(), self.channels.alpha_index) {
            (Some(rgb), Some(alpha)) => if 0 <= x < self.width && 0 <= y < self.height {
                let p = x + y * self.width;
                Some(
                    seq![
                        self.buffer[sample_index(p, rgb as int, self.num_channels as int)],
                        self.buffer[sample_index(p, rgb + 1, self.num_channels as int)],
                        self.buffer[sample_index(p, rgb + 2, self.num_channels as int)],
                        self.buffer[sample_index(p, alpha as int, self.num_channels as int)],
                    ],
                )
            } else {
                None
            },
            _ => None,
        }
    }
}

/// The pixels of a row lie behind those of the rows before it, inside the image.
proof fn lemma_pixel_number(x: int, y: int, width: int, height: int)
    by (nonlinear_arith)
    requires
        0 <= x < width,
        0 <= y < height,
    ensures
        0 <= y * width <= x + y * width < width * height,
{
}

impl ImageData {
    /// The width of the image in pixels.
    pub fn width(&self) -> (r: usize)
        ensures
            r == self@.width,
    {
        self.width
    }

    /// The height of the image in pixels.
    pub fn height(&self) -> (r: usize)
        ensures
            r == self@.height,
    {
        self.height
    }

    /// The number of channels of a pixel.
    pub fn num_channels(&self) -> (r: usize)
        ensures
            r == self@.num_channels,
    {
        self.num_channels
    }

    /// Where the known channels stand in a pixel.
    pub fn channels(&self) -> (r: ChannelMap)
        ensures
            r == self@.channels,
    {
        self.channels
    }

    /// What is known of the camera and the renderer.
    pub fn camera(&self) -> (r: &Camera)
        ensures
            r@ == self@.camera,
    {
        &self.camera
    }

    /// How the samples are to be written.
    pub fn policy(&self) -> (r: EncodingPolicy)
        ensures
            r == self@.policy,
    {
        self.policy
    }

    /// The path of the file to be written.
    pub fn file_name(&self) -> (r: &String)
        ensures
            r@ == self@.file_name,
    {
        &self.file_name
    }

    /// The blend factor, a pattern of the unit interval.
    pub fn denoise(&self) -> (r: u32)
        ensures
            r == self@.denoise,
    {
        self.denoise
    }

    /// The number of pixels of the image.
    pub fn total_pixels(&self) -> (r: usize)
        ensures
            r == self@.total_pixels,
    {
        self.total_pixels
    }

    /// The number of pixels that have been delivered.
    pub fn finished_pixels(&self) -> (r: usize)
        ensures
            r == self@.finished_pixels,
    {
        self.finished_pixels
    }

    /// Where in the buffer the next tile goes.
    pub fn write_cursor(&self) -> (r: usize)
        ensures
            r == self@.write_cursor,
    {
        self.offset
    }

    /// The samples, pixel after pixel, the channels of a pixel next to each other.
    pub fn buffer(&self) -> (r: &Vec<u32>)
        ensures
            r@ == self@.buffer,
    {
        &self.data
    }

    /// The samples of one pixel that go into the file: red, green, blue, alpha.
    ///
    /// There are none where colour or alpha is not mapped, or for a
    /// position outside the image.
    pub fn rgba(&self, x: usize, y: usize) -> (r: Option<[u32; 4]>)
        requires
            self.wf(),
        ensures
            match r {
                Some(pixel) => self@.rgba(x as int, y as int) == Some(pixel@),
                None => self@.rgba(x as int, y as int).is_none(),
            },
    {
        match (self.rgb_slot(), self.channels.alpha_index) {
            (Some(rgb), Some(alpha)) => {
                if x < self.width && y < self.height {
                    proof {
                        lemma_pixel_number(
                            x as int,
                            y as int,
                            self.width as int,
                            self.height as int,
                        );
                        lemma_sample_index(
                            x + y * self.width,
                            0,
                            self.total_pixels as int,
                            self.num_channels as int,
                        );
                        assert(self.data.len() == self.total_pixels * self.num_channels);
                        assert(self.total_pixels == self.width * self.height);
                    }
                    let base = (x + y * self.width) * self.num_channels;
                    let pixel = [
                        self.data[base + rgb],
                        self.data[base + rgb + 1],
                        self.data[base + rgb + 2],
                        self.data[base + alpha],
                    ];
                    proof {
                        assert(pixel@ =~= self@.rgba(x as int, y as int).unwrap());
                    }
                    Some(pixel)
                } else {
                    None
                }
            },
            _ => None,
        }
    }

    /// The three samples that start at channel `start`, pixel after pixel.
    pub(crate) fn gather_planar(&self, start: usize) -> (planar: Vec<u32>)
        requires
            self.wf(),
            start + 3 <= self@.num_channels,
        ensures
            planar@ == planar_of(
                self@.buffer,
                self@.total_pixels as int,
                self@.num_channels as int,
                start as int,
            ),
            planar.len() == 3 * self@.total_pixels,
    {
        gather(&self.data, self.total_pixels, self.num_channels, start)
    }

    /// Takes the colour of every pixel from `planar`.
    pub(crate) fn store_colour(&mut self, rgb: usize, planar: &Vec<u32>)
        requires
            old(self).wf(),
            old(self)@.rgb_slot() == Some(rgb),
            planar.len() == 3 * old(self)@.total_pixels,
        ensures
            final(self).wf(),
            final(self)@ == (ImageView { buffer: final(self)@.buffer, ..old(self)@ }),
            colour_replaced(
                old(self)@.buffer,
                final(self)@.buffer,
                old(self)@.total_pixels as int,
                old(self)@.num_channels as int,
                rgb as int,
                planar@,
            ),
    {
        scatter(&mut self.data, self.total_pixels, self.num_channels, rgb, planar);
    }

    /// Mixes the colour of every pixel with that of `planar`.
    pub(crate) fn mix_colour<F: Fn(u32, u32, u32) -> u32>(
        &mut self,
        rgb: usize,
        planar: &Vec<u32>,
        mix: &F,
    )
        requires
            old(self).wf(),
            old(self)@.rgb_slot() == Some(rgb),
            planar.len() == 3 * old(self)@.total_pixels,
            forall|x: u32, y: u32, b: u32| mix.requires((x, y, b)),
        ensures
            final(self).wf(),
            final(self)@ == (ImageView { buffer: final(self)@.buffer, ..old(self)@ }),
            colour_blended(
                *mix,
                old(self)@.buffer,
                final(self)@.buffer,
                old(self)@.total_pixels as int,
                old(self)@.num_channels as int,
                rgb as int,
                planar@,
                old(self)@.denoise,
            ),
    {
        blend_colour(
            &mut self.data,
            self.total_pixels,
            self.num_channels,
            rgb,
            planar,
            self.denoise,
            mix,
        );
    }
}

} // verus!
