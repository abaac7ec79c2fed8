//! Post-processing: what happens to the assembled buffer between the last
//! tile and the file.
//!
//! Colour is divided by alpha, handed to a denoiser together with the albedo
//! and the normal where they are known, taken back whole or mixed with what
//! it was, and multiplied by alpha again. The denoiser itself runs outside:
//! [`begin`] prepares its input and [`finish`] files its output.
//!
//! A blend factor at or below the machine epsilon switches denoising off, as
//! does a buffer without colour. The samples are then left bit for bit as
//! they came, unless the file is to hold colour that is not multiplied by
//! alpha.

use vstd::prelude::*;
use crate::image::{ImageData, ImageView};
use crate::pixels::{
    colour_blended, colour_replaced, planar_of, sample_blended, sample_index, sample_scaled,
};
use crate::sample::{above_epsilon, is_zero, EPSILON, ONE, ZERO};

verus! {

/// What the denoiser is to be run on. All buffers are planar, three samples
/// per pixel.
#[derive(Debug)]
pub struct DenoiseJob {
    pub width: usize,
    pub height: usize,
    /// The colour is high-dynamic-range: always set.
    pub hdr: bool,
    pub color: Vec<u32>,
    /// The albedo guide.
    pub albedo: Option<Vec<u32>>,
    /// The normal guide, only ever present together with the albedo.
    pub normal: Option<Vec<u32>>,
    /// The result replaces the colour; otherwise it is mixed with it.
    pub in_place: bool,
}

impl ImageView {
    /// The denoiser is to be run: colour is mapped and the blend factor is
    /// greater than the machine epsilon.
    pub open spec fn denoises(self) -> bool {
        self.rgb_slot().is_some() && above_epsilon(self.denoise)
    }

    /// `job` is the denoiser's input for this session.
    pub open spec fn denoise_input(self, job: DenoiseJob) -> bool {
        &&& self.rgb_slot() matches Some(rgb)
        &&& job.width == self.width
        &&& job.height == self.height
        &&& job.hdr
        &&& job.in_place == (self.denoise == ONE)
        &&& job.color@ == planar_of(
            self.buffer,
            self.total_pixels as int,
            self.num_channels as int,
            rgb as int,
        )
        &&& match self.albedo_slot() {
            Some(albedo) => {
                &&& job.albedo matches Some(guide)
                &&& guide@ == planar_of(
                    self.buffer,
                    self.total_pixels as int,
                    self.num_channels as int,
                    albedo as int,
                )
                &&& match self.normal_slot() {
                    Some(normal) => {
                        &&& job.normal matches Some(guide)
                        &&& guide@ == planar_of(
                            self.buffer,
                            self.total_pixels as int,
                            self.num_channels as int,
                            normal as int,
                        )
                    },
                    None => job.normal.is_none(),
                }
            },
            None => job.albedo.is_none() && job.normal.is_none(),
        }
    }

    /// `after` is the buffer as [`begin`] leaves it.
    pub open spec fn begun<U: Fn(u32, u32) -> u32>(self, after: Seq<u32>, unassociate: U) -> bool {
        if self.denoises() || !self.policy.premultiply {
            self.unpremultiplied(after, unassociate)
        } else {
            after == self.buffer
        }
    }

    /// The denoiser's output can be used: there is one and it holds three
    /// samples per pixel.
    pub open spec fn usable(self, denoised: Option<Seq<u32>>) -> bool {
        denoised matches Some(d) && d.len() == 3 * self.total_pixels
    }

    /// `mid` is the buffer with the denoiser's output filed: taken whole
    /// where the blend factor is one, mixed in by `mix` where it is less.
    /// The buffer stays as it is where the output cannot be used.
    pub open spec fn merged<M: Fn(u32, u32, u32) -> u32>(
        self,
        mid: Seq<u32>,
        denoised: Option<Seq<u32>>,
        mix: M,
    ) -> bool {
        match (self.rgb_slot(), denoised) {
            (Some(rgb), Some(d)) => if self.usable(denoised) {
                if self.denoise == ONE {
                    colour_replaced(
                        self.buffer,
                        mid,
                        self.total_pixels as int,
                        self.num_channels as int,
                        rgb as int,
                        d,
                    )
                } else {
                    colour_blended(
                        mix,
                        self.buffer,
                        mid,
                        self.total_pixels as int,
                        self.num_channels as int,
                        rgb as int,
                        d,
                        self.denoise,
                    )
                }
            } else {
                mid == self.buffer
            },
            _ => mid == self.buffer,
        }
    }

    /// `after` is the buffer as [`finish`] leaves it, by way of `mid`: the
    /// denoiser's output is filed, then colour is multiplied by alpha where
    /// the file is to hold it so.
    pub open spec fn finished<M: Fn(u32, u32, u32) -> u32, A: Fn(u32, u32) -> u32>(
        self,
        mid: Seq<u32>,
        after: Seq<u32>,
        denoised: Option<Seq<u32>>,
        mix: M,
        associate: A,
    ) -> bool {
        if self.denoises() {
            &&& self.merged(mid, denoised, mix)
            &&& if self.policy.premultiply {
                (ImageView { buffer: mid, ..self }).premultiplied(after, associate)
            } else {
                after == mid
            }
        } else {
            mid == self.buffer && after == self.buffer
        }
    }
}

/// The view of an optional buffer.
pub open spec fn optional_view(buffer: Option<Vec<u32>>) -> Option<Seq<u32>> {
    match buffer {
        Some(b) => Some(b@),
        None => None,
    }
}

/// The first half of post-processing.
///
/// Where the denoiser is to be run, colour is divided by alpha and the
/// denoiser's input is returned. Where it is not, nothing is returned, and
/// colour is divided by alpha only if the file is to hold it so.
pub fn begin<U: Fn(u32, u32) -> u32>(image: &mut ImageData, unassociate: &U) -> (r: Option<
    DenoiseJob,
>)
    requires
        old(image).wf(),
        forall|c: u32, a: u32| unassociate.requires((c, a)),
    ensures
        final(image).wf(),
        final(image)@ == (ImageView { buffer: final(image)@.buffer, ..old(image)@ }),
        old(image)@.begun(final(image)@.buffer, *unassociate),
        match r {
            Some(job) => old(image)@.denoises() && final(image)@.denoise_input(job),
            None => !old(image)@.denoises(),
        },
{
    let rgb = match image.rgb_slot() {
        Some(rgb) if image.denoise() > EPSILON => rgb,
        _ => {
            if !image.policy().premultiply {
                image.unpremultiply(unassociate);
            }
            return None;
        },
    };
    image.unpremultiply(unassociate);
    let color = image.gather_planar(rgb);
    let mut albedo: Option<Vec<u32>> = None;
    let mut normal: Option<Vec<u32>> = None;
    if let Some(start) = image.albedo_slot() {
        albedo = Some(image.gather_planar(start));
        if let Some(start) = image.normal_slot() {
            normal = Some(image.gather_planar(start));
        }
    }
    Some(
        DenoiseJob {
            width: image.width(),
            height: image.height(),
            hdr: true,
            color,
            albedo,
            normal,
            in_place: image.denoise() >= ONE,
        },
    )
}

/// The second half of post-processing, for a session whose denoiser was run.
///
/// `denoised` is what the denoiser returned: its output, planar, or nothing
/// where it failed. Output of the wrong length counts as a failure. After a
/// failure the colour stays what it was. Colour is then multiplied by alpha
/// where the file is to hold it so.
///
/// Nothing is done for a session whose denoiser is not to be run.
pub fn finish<M: Fn(u32, u32, u32) -> u32, A: Fn(u32, u32) -> u32>(
    image: &mut ImageData,
    denoised: Option<Vec<u32>>,
    mix: &M,
    associate: &A,
)
    requires
        old(image).wf(),
        forall|x: u32, y: u32, b: u32| mix.requires((x, y, b)),
        forall|c: u32, a: u32| associate.requires((c, a)),
    ensures
        final(image).wf(),
        final(image)@ == (ImageView { buffer: final(image)@.buffer, ..old(image)@ }),
        exists|mid: Seq<u32>| #[trigger]
            old(image)@.finished(
                mid,
                final(image)@.buffer,
                optional_view(denoised),
                *mix,
                *associate,
            ),
{
    let factor = image.denoise();
    let slot = image.rgb_slot();
    if slot.is_none() || factor <= EPSILON {
        proof {
            assert(old(image)@.finished(
                old(image)@.buffer,
                image@.buffer,
                optional_view(denoised),
                *mix,
                *associate,
            ));
        }
        return ;
    }
    let rgb = slot.unwrap();
    match &denoised {
        Some(d) => {
            if image.total_pixels() <= usize::MAX / 3 && d.len() == 3 * image.total_pixels() {
                if factor >= ONE {
                    image.store_colour(rgb, d);
                } else {
                    image.mix_colour(rgb, d, mix);
                }
            }
        },
        None => {},
    }
    let ghost mid = image@.buffer;
    if image.policy().premultiply {
        image.premultiply(associate);
    }
    proof {
        assert(old(image)@.merged(mid, optional_view(denoised), *mix));
        assert(old(image)@.finished(
            mid,
            image@.buffer,
            optional_view(denoised),
            *mix,
            *associate,
        ));
    }
}


/// Without denoising, a file that is to hold colour multiplied by alpha
/// gets every sample exactly as the host delivered it: the first half of
/// post-processing leaves the buffer as it is, and with it what the
/// encoder samples. A blend factor of zero is one that switches denoising off.
pub proof fn lemma_round_trip<U: Fn(u32, u32) -> u32>(
    image: ImageView,
    after: Seq<u32>,
    unassociate: U,
)
    requires
        !image.denoises(),
        image.policy.premultiply,
        image.begun(after, unassociate),
    ensures
        after == image.buffer,
        forall|x: int, y: int|
            (#[trigger] (ImageView { buffer: after, ..image }).rgba(x, y)) == image.rgba(x, y),
        image.denoise == ZERO ==> !image.denoises(),
{
}

/// Dividing colour by alpha and multiplying it back brings every colour
/// sample as close to what it was as the arithmetic does, in every pixel
/// whose alpha is not zero: what holds of `associate` applied to the result
/// of `unassociate` with the same alpha, as `close` says, holds of the two
/// passes over the buffer. Alpha must not be one of the three colour channels.
pub proof fn lemma_unpremultiply_premultiply<U: Fn(u32, u32) -> u32, A: Fn(u32, u32) -> u32>(
    image: ImageView,
    mid: Seq<u32>,
    after: Seq<u32>,
    unassociate: U,
    associate: A,
    close: spec_fn(u32, u32) -> bool,
)
    requires
        image.wf(),
        image.rgb_slot() matches Some(rgb) && image.channels.alpha_index matches Some(alpha) && !(
        rgb <= alpha < rgb + 3),
        image.unpremultiplied(mid, unassociate),
        (ImageView { buffer: mid, ..image }).premultiplied(after, associate),
        forall|c: u32, a: u32, m: u32, r: u32|
            #![trigger call_ensures(unassociate, (c, a), m), call_ensures(associate, (m, a), r)]
            !is_zero(a) && call_ensures(unassociate, (c, a), m) && call_ensures(
                associate,
                (m, a),
                r,
            ) ==> close(c, r),
    ensures
        forall|p: int, k: int|
            #![trigger sample_index(p, image.rgb_slot().unwrap() + k, image.num_channels as int)]
            0 <= p < image.total_pixels && 0 <= k < 3 && !is_zero(
                image.buffer[sample_index(
                    p,
                    image.channels.alpha_index.unwrap() as int,
                    image.num_channels as int,
                )],
            ) ==> close(
                image.buffer[sample_index(
                    p,
                    image.rgb_slot().unwrap() + k,
                    image.num_channels as int,
                )],
                after[sample_index(p, image.rgb_slot().unwrap() + k, image.num_channels as int)],
            ),
{
    let rgb = image.rgb_slot().unwrap() as int;
    let alpha = image.channels.alpha_index.unwrap() as int;
    let n = image.num_channels as int;
    let pixels = image.total_pixels as int;
    assert forall|p: int, k: int|
        #![trigger sample_index(p, rgb + k, n)]
        0 <= p < pixels && 0 <= k < 3 && !is_zero(
            image.buffer[sample_index(p, alpha, n)],
        ) implies close(
        image.buffer[sample_index(p, rgb + k, n)],
        after[sample_index(p, rgb + k, n)],
    ) by {
        assert(sample_scaled(unassociate, image.buffer, mid, p, rgb + k, n, rgb, alpha, true));
        assert(sample_scaled(unassociate, image.buffer, mid, p, alpha, n, rgb, alpha, true));
        assert(sample_scaled(associate, mid, after, p, rgb + k, n, rgb, alpha, false));
    }
}

/// Filing the denoiser's output brings every colour sample as far from
/// what it was and from what the denoiser made of it as the arithmetic
/// does: what holds of `mix`, as `between` says of a sample, the denoised
/// sample and the result, holds of the colour in the buffer.
pub proof fn lemma_blend_between<M: Fn(u32, u32, u32) -> u32>(
    image: ImageView,
    mid: Seq<u32>,
    denoised: Seq<u32>,
    mix: M,
    between: spec_fn(u32, u32, u32) -> bool,
)
    requires
        image.wf(),
        image.rgb_slot().is_some(),
        image.usable(Some(denoised)),
        image.merged(mid, Some(denoised), mix),
        forall|x: u32, d: u32, r: u32| #[trigger]
            call_ensures(mix, (x, d, image.denoise), r) ==> between(x, d, r),
        forall|x: u32, d: u32| #[trigger] between(x, d, d),
    ensures
        forall|p: int, k: int|
            #![trigger sample_index(p, image.rgb_slot().unwrap() + k, image.num_channels as int)]
            0 <= p < image.total_pixels && 0 <= k < 3 ==> between(
                image.buffer[sample_index(
                    p,
                    image.rgb_slot().unwrap() + k,
                    image.num_channels as int,
                )],
                denoised[3 * p + k],
                mid[sample_index(p, image.rgb_slot().unwrap() + k, image.num_channels as int)],
            ),
{
    let rgb = image.rgb_slot().unwrap() as int;
    let n = image.num_channels as int;
    let pixels = image.total_pixels as int;
    assert forall|p: int, k: int|
        #![trigger sample_index(p, rgb + k, n)]
        0 <= p < pixels && 0 <= k < 3 implies between(
        image.buffer[sample_index(p, rgb + k, n)],
        denoised[3 * p + k],
        mid[sample_index(p, rgb + k, n)],
    ) by {
        if image.denoise != ONE {
            assert(sample_blended(
                mix,
                image.buffer,
                mid,
                p,
                rgb + k,
                n,
                rgb,
                denoised,
                image.denoise,
            ));
        }
    }
}

} // verus!
