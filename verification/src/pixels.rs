//! Work on a buffer of interleaved samples, pixel by pixel.
//!
//! A buffer of `pixels` pixels with `num_channels` channels each holds the
//! sample of channel `c` of pixel `p` at index `p * num_channels + c`. A
//! planar buffer holds three samples per pixel, at `3 * p`, `3 * p + 1` and
//! `3 * p + 2`.
//!
//! The arithmetic is the caller's: a function on bit patterns, of which these
//! functions claim what its own contract claims.

use vstd::prelude::*;
use crate::sample::{is_zero, zero};

verus! {

/// The index of the sample of channel `c` of pixel `p`.
pub open spec fn sample_index(p: int, c: int, num_channels: int) -> int {
    p * num_channels + c
}

/// The samples of a pixel lie inside the buffer, behind those of the pixels before it.
pub proof fn lemma_sample_index(p: int, c: int, pixels: int, num_channels: int)
    by (nonlinear_arith)
    requires
        0 <= p < pixels,
        0 <= c < num_channels,
    ensures
        0 <= p * num_channels <= sample_index(p, c, num_channels) < (p + 1) * num_channels
            <= pixels * num_channels,
        (p + 1) * num_channels == p * num_channels + num_channels,
{
}

/// What `op` has made of one sample: the colour samples of a pixel are
/// rewritten by `op`, which is given the sample and the pixel's alpha; all
/// other samples stay. With `skip_zero`, pixels whose alpha is zero stay too.
pub open spec fn sample_scaled<F: Fn(u32, u32) -> u32>(
    op: F,
    before: Seq<u32>,
    after: Seq<u32>,
    p: int,
    c: int,
    num_channels: int,
    rgb: int,
    alpha: int,
    skip_zero: bool,
) -> bool {
    let a = before[sample_index(p, alpha, num_channels)];
    let i = sample_index(p, c, num_channels);
    if rgb <= c < rgb + 3 && !(skip_zero && is_zero(a)) {
        call_ensures(op, (before[i], a), after[i])
    } else {
        after[i] == before[i]
    }
}

/// `after` is `before` with the colour of every pixel rewritten by `op`
/// against the pixel's alpha as it was before.
pub open spec fn colour_scaled<F: Fn(u32, u32) -> u32>(
    op: F,
    before: Seq<u32>,
    after: Seq<u32>,
    pixels: int,
    num_channels: int,
    rgb: int,
    alpha: int,
    skip_zero: bool,
) -> bool {
    &&& after.len() == before.len()
    &&& forall|p: int, c: int|
        0 <= p < pixels && 0 <= c < num_channels ==> #[trigger] sample_scaled(
            op,
            before,
            after,
            p,
            c,
            num_channels,
            rgb,
            alpha,
            skip_zero,
        )
}

/// The three samples that start at channel `start`, pixel after pixel.
pub open spec fn planar_of(buffer: Seq<u32>, pixels: int, num_channels: int, start: int) -> Seq<
    u32,
> {
    Seq::new(
        (3 * pixels) as nat,
        |i: int| buffer[sample_index(i / 3, start + i % 3, num_channels)],
    )
}

/// `after` is `before` with the colour of every pixel taken from `planar`.
pub open spec fn colour_replaced(
    before: Seq<u32>,
    after: Seq<u32>,
    pixels: int,
    num_channels: int,
    rgb: int,
    planar: Seq<u32>,
) -> bool {
    &&& after.len() == before.len()
    &&& forall|p: int, c: int|
        0 <= p < pixels && 0 <= c < num_channels ==> #[trigger] after[sample_index(
            p,
            c,
            num_channels,
        )] == if rgb <= c < rgb + 3 {
            planar[3 * p + c - rgb]
        } else {
            before[sample_index(p, c, num_channels)]
        }
}

/// What `mix` has made of one sample: a colour sample is what `mix` gives
/// for it, the sample of `planar` in its place and `blend`; other samples stay.
pub open spec fn sample_blended<F: Fn(u32, u32, u32) -> u32>(
    mix: F,
    before: Seq<u32>,
    after: Seq<u32>,
    p: int,
    c: int,
    num_channels: int,
    rgb: int,
    planar: Seq<u32>,
    blend: u32,
) -> bool {
    let i = sample_index(p, c, num_channels);
    if rgb <= c < rgb + 3 {
        call_ensures(mix, (before[i], planar[3 * p + c - rgb], blend), after[i])
    } else {
        after[i] == before[i]
    }
}

/// `after` is `before` with the colour of every pixel mixed with that of `planar`.
pub open spec fn colour_blended<F: Fn(u32, u32, u32) -> u32>(
    mix: F,
    before: Seq<u32>,
    after: Seq<u32>,
    pixels: int,
    num_channels: int,
    rgb: int,
    planar: Seq<u32>,
    blend: u32,
) -> bool {
    &&& after.len() == before.len()
    &&& forall|p: int, c: int|
        0 <= p < pixels && 0 <= c < num_channels ==> #[trigger] sample_blended(
            mix,
            before,
            after,
            p,
            c,
            num_channels,
            rgb,
            planar,
            blend,
        )
}

/// Rewrites the colour of the pixel whose samples start at `base`.
fn scale_pixel<F: Fn(u32, u32) -> u32>(
    data: &mut Vec<u32>,
    base: usize,
    rgb: usize,
    alpha: usize,
    skip_zero: bool,
    op: &F,
)
    requires
        base + rgb + 3 <= old(data).len(),
        base + alpha < old(data).len(),
        forall|c: u32, a: u32| op.requires((c, a)),
    ensures
        final(data).len() == old(data).len(),
        forall|i: int|
            0 <= i < old(data).len() ==> if base + rgb <= i < base + rgb + 3 && !(skip_zero
                && is_zero(old(data)[base + alpha])) {
                call_ensures(*op, (old(data)[i], old(data)[base + alpha]), #[trigger] final(data)[i])
            } else {
                final(data)[i] == old(data)[i]
            },
{
    let a = data[base + alpha];
    if skip_zero && zero(a) {
        return ;
    }
    let first = op(data[base + rgb], a);
    let second = op(data[base + rgb + 1], a);
    let third = op(data[base + rgb + 2], a);
    data.set(base + rgb, first);
    data.set(base + rgb + 1, second);
    data.set(base + rgb + 2, third);
}

/// Rewrites the colour of every pixel by `op`, which is given the colour
/// sample and the alpha of its pixel.
pub(crate) fn scale_colour<F: Fn(u32, u32) -> u32>(
    data: &mut Vec<u32>,
    pixels: usize,
    num_channels: usize,
    rgb: usize,
    alpha: usize,
    skip_zero: bool,
    op: &F,
)
    requires
        old(data).len() == pixels * num_channels,
        rgb + 3 <= num_channels,
        alpha < num_channels,
        forall|c: u32, a: u32| op.requires((c, a)),
    ensures
        colour_scaled(
            *op,
            old(data)@,
            final(data)@,
            pixels as int,
            num_channels as int,
            rgb as int,
            alpha as int,
            skip_zero,
        ),
{
    let mut p: usize = 0;
    let mut base: usize = 0;
    while p < pixels
        invariant
            p <= pixels,
            base == p * num_channels,
            data.len() == old(data).len(),
            data.len() == pixels * num_channels,
            rgb + 3 <= num_channels,
            alpha < num_channels,
            forall|c: u32, a: u32| op.requires((c, a)),
            forall|i: int| base <= i < data.len() ==> data[i] == old(data)[i],
            forall|q: int, c: int|
                0 <= q < p && 0 <= c < num_channels ==> #[trigger] sample_scaled(
                    *op,
                    old(data)@,
                    data@,
                    q,
                    c,
                    num_channels as int,
                    rgb as int,
                    alpha as int,
                    skip_zero,
                ),
        decreases pixels - p,
    {
        let ghost before = data@;
        proof {
            lemma_sample_index(p as int, 0, pixels as int, num_channels as int);
        }
        scale_pixel(data, base, rgb, alpha, skip_zero, op);
        proof {
            assert forall|q: int, c: int|
                0 <= q < p + 1 && 0 <= c < num_channels implies #[trigger] sample_scaled(
                *op,
                old(data)@,
                data@,
                q,
                c,
                num_channels as int,
                rgb as int,
                alpha as int,
                skip_zero,
            ) by {
                lemma_sample_index(q, c, pixels as int, num_channels as int);
                lemma_sample_index(q, alpha as int, pixels as int, num_channels as int);
                if q < p {
                    lemma_sample_index(q, c, p as int, num_channels as int);
                    assert(sample_scaled(
                        *op,
                        old(data)@,
                        before,
                        q,
                        c,
                        num_channels as int,
                        rgb as int,
                        alpha as int,
                        skip_zero,
                    ));
                }
            }
        }
        base += num_channels;
        p += 1;
    }
}

/// Copies the three samples that start at channel `start` out of every pixel.
pub(crate) fn gather(data: &Vec<u32>, pixels: usize, num_channels: usize, start: usize) -> (planar: Vec<
    u32,
>)
    requires
        data.len() == pixels * num_channels,
        start + 3 <= num_channels,
    ensures
        planar@ == planar_of(data@, pixels as int, num_channels as int, start as int),
{
    let mut planar: Vec<u32> = Vec::new();
    let mut p: usize = 0;
    let mut base: usize = 0;
    while p < pixels
        invariant
            p <= pixels,
            base == p * num_channels,
            data.len() == pixels * num_channels,
            start + 3 <= num_channels,
            planar.len() == 3 * p,
            forall|i: int|
                0 <= i < 3 * p ==> planar[i] == data[sample_index(
                    i / 3,
                    start + i % 3,
                    num_channels as int,
                )],
        decreases pixels - p,
    {
        proof {
            lemma_sample_index(p as int, 0, pixels as int, num_channels as int);
        }
        planar.push(data[base + start]);
        planar.push(data[base + start + 1]);
        planar.push(data[base + start + 2]);
        base += num_channels;
        p += 1;
    }
    proof {
        assert(planar@ =~= planar_of(data@, pixels as int, num_channels as int, start as int));
    }
    planar
}

/// Writes the samples of `planar` into the colour channels of every pixel.
pub(crate) fn scatter(
    data: &mut Vec<u32>,
    pixels: usize,
    num_channels: usize,
    rgb: usize,
    planar: &Vec<u32>,
)
    requires
        old(data).len() == pixels * num_channels,
        rgb + 3 <= num_channels,
        planar.len() == 3 * pixels,
    ensures
        colour_replaced(
            old(data)@,
            final(data)@,
            pixels as int,
            num_channels as int,
            rgb as int,
            planar@,
        ),
{
    let mut p: usize = 0;
    let mut base: usize = 0;
    while p < pixels
        invariant
            p <= pixels,
            base == p * num_channels,
            data.len() == old(data).len(),
            data.len() == pixels * num_channels,
            rgb + 3 <= num_channels,
            planar.len() == 3 * pixels,
            forall|i: int| base <= i < data.len() ==> data[i] == old(data)[i],
            forall|q: int, c: int|
                0 <= q < p && 0 <= c < num_channels ==> #[trigger] data[sample_index(
                    q,
                    c,
                    num_channels as int,
                )] == if rgb <= c < rgb + 3 {
                    planar[3 * q + c - rgb]
                } else {
                    old(data)[sample_index(q, c, num_channels as int)]
                },
        decreases pixels - p,
    {
        let ghost before = data@;
        proof {
            lemma_sample_index(p as int, 0, pixels as int, num_channels as int);
        }
        data.set(base + rgb, planar[3 * p]);
        data.set(base + rgb + 1, planar[3 * p + 1]);
        data.set(base + rgb + 2, planar[3 * p + 2]);
        proof {
            assert forall|q: int, c: int|
                0 <= q < p + 1 && 0 <= c < num_channels implies #[trigger] data[sample_index(
                q,
                c,
                num_channels as int,
            )] == if rgb <= c < rgb + 3 {
                planar[3 * q + c - rgb]
            } else {
                old(data)[sample_index(q, c, num_channels as int)]
            } by {
                lemma_sample_index(q, c, pixels as int, num_channels as int);
                if q < p {
                    lemma_sample_index(q, c, p as int, num_channels as int);
                    assert(data[sample_index(q, c, num_channels as int)] == before[sample_index(
                        q,
                        c,
                        num_channels as int,
                    )]);
                }
            }
        }
        base += num_channels;
        p += 1;
    }
}

/// Mixes the samples of `planar` into the colour channels of every pixel:
/// `mix` is given the sample of the buffer, the sample of `planar` and `blend`.
pub(crate) fn blend_colour<F: Fn(u32, u32, u32) -> u32>(
    data: &mut Vec<u32>,
    pixels: usize,
    num_channels: usize,
    rgb: usize,
    planar: &Vec<u32>,
    blend: u32,
    mix: &F,
)
    requires
        old(data).len() == pixels * num_channels,
        rgb + 3 <= num_channels,
        planar.len() == 3 * pixels,
        forall|x: u32, y: u32, b: u32| mix.requires((x, y, b)),
    ensures
        colour_blended(
            *mix,
            old(data)@,
            final(data)@,
            pixels as int,
            num_channels as int,
            rgb as int,
            planar@,
            blend,
        ),
{
    let mut p: usize = 0;
    let mut base: usize = 0;
    while p < pixels
        invariant
            p <= pixels,
            base == p * num_channels,
            data.len() == old(data).len(),
            data.len() == pixels * num_channels,
            rgb + 3 <= num_channels,
            planar.len() == 3 * pixels,
            forall|x: u32, y: u32, b: u32| mix.requires((x, y, b)),
            forall|i: int| base <= i < data.len() ==> data[i] == old(data)[i],
            forall|q: int, c: int|
                0 <= q < p && 0 <= c < num_channels ==> #[trigger] sample_blended(
                    *mix,
                    old(data)@,
                    data@,
                    q,
                    c,
                    num_channels as int,
                    rgb as int,
                    planar@,
                    blend,
                ),
        decreases pixels - p,
    {
        let ghost before = data@;
        proof {
            lemma_sample_index(p as int, 0, pixels as int, num_channels as int);
        }
        let first = mix(data[base + rgb], planar[3 * p], blend);
        let second = mix(data[base + rgb + 1], planar[3 * p + 1], blend);
        let third = mix(data[base + rgb + 2], planar[3 * p + 2], blend);
        data.set(base + rgb, first);
        data.set(base + rgb + 1, second);
        data.set(base + rgb + 2, third);
        proof {
            assert forall|q: int, c: int|
                0 <= q < p + 1 && 0 <= c < num_channels implies #[trigger] sample_blended(
                *mix,
                old(data)@,
                data@,
                q,
                c,
                num_channels as int,
                rgb as int,
                planar@,
                blend,
            ) by {
                lemma_sample_index(q, c, pixels as int, num_channels as int);
                if q < p {
                    lemma_sample_index(q, c, p as int, num_channels as int);
                    assert(sample_blended(
                        *mix,
                        old(data)@,
                        before,
                        q,
                        c,
                        num_channels as int,
                        rgb as int,
                        planar@,
                        blend,
                    ));
                }
            }
        }
        base += num_channels;
        p += 1;
    }
}

} // verus!
