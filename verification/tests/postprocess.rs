use r_display::channels::ChannelMap;
use r_display::encoding::Compression;
use r_display::error::DspyError;
use r_display::image::{Camera, EncodingPolicy, ImageData};
use r_display::postprocess::{begin, finish};

fn bits(x: f32) -> u32 {
    x.to_bits()
}

fn unassociate(c: u32, a: u32) -> u32 {
    (f32::from_bits(c) * (1.0 / f32::from_bits(a))).to_bits()
}

fn associate(c: u32, a: u32) -> u32 {
    (f32::from_bits(c) * f32::from_bits(a)).to_bits()
}

fn mix(x: u32, d: u32, blend: u32) -> u32 {
    let b = f32::from_bits(blend);
    (f32::from_bits(x) * (1.0 - b) + f32::from_bits(d) * b).to_bits()
}

fn full_map() -> ChannelMap {
    ChannelMap {
        rgb_index: Some(0),
        alpha_index: Some(3),
        albedo_index: Some(4),
        normal_index: Some(7),
    }
}

fn rgba_map() -> ChannelMap {
    ChannelMap { rgb_index: Some(0), alpha_index: Some(3), albedo_index: None, normal_index: None }
}

fn filled(
    width: usize,
    height: usize,
    channels: ChannelMap,
    premultiply: bool,
    denoise: f32,
    samples: &[f32],
) -> ImageData {
    let mut image = ImageData::new(
        "image.exr".to_string(),
        width,
        height,
        samples.len() / (width * height),
        channels,
        Camera {
            pixel_aspect: bits(1.0),
            world_to_screen: None,
            world_to_camera: None,
            near: None,
            far: None,
            renderer: None,
        },
        EncodingPolicy {
            premultiply,
            compression: Compression::ZIP16,
            line_order: None,
            tile_size: None,
        },
        bits(denoise),
    )
    .unwrap();
    let data: Vec<u32> = samples.iter().map(|x| x.to_bits()).collect();
    assert_eq!(image.write_tile(0, width as i32, 0, height as i32, &data), DspyError::NoError);
    image
}

fn floats(image: &ImageData) -> Vec<f32> {
    image.buffer().iter().map(|b| f32::from_bits(*b)).collect()
}

const TWO_PIXELS: [f32; 8] = [0.5, 0.25, 0.125, 0.5, 0.3, 0.2, 0.1, 0.0];

#[test]
fn without_denoising_premultiplied_samples_stay_bit_for_bit() {
    let odd = [0.1f32, 0.2, 0.3, 0.7, 5.0, 6.0, 7.0, 0.0, f32::NAN, -0.0, 1.0e-40, 0.3];
    for denoise in [0.0f32, -1.0, f32::EPSILON, 1.0e-8, f32::NAN] {
        let mut image = filled(3, 1, rgba_map(), true, denoise, &odd);
        let before = image.buffer().clone();
        assert!(begin(&mut image, &unassociate).is_none());
        assert_eq!(image.buffer(), &before);
        for x in 0..3 {
            assert_eq!(image.rgba(x, 0).unwrap()[..], before[4 * x..4 * x + 4]);
        }
    }
}

#[test]
fn without_denoising_colour_is_divided_if_the_file_wants_it_so() {
    let mut image = filled(2, 1, rgba_map(), false, 0.0, &TWO_PIXELS);
    assert!(begin(&mut image, &unassociate).is_none());
    assert_eq!(floats(&image), [1.0, 0.5, 0.25, 0.5, 0.3, 0.2, 0.1, 0.0]);
}

#[test]
fn without_colour_nothing_happens() {
    let map = ChannelMap { rgb_index: None, alpha_index: Some(3), albedo_index: None, normal_index: None };
    for premultiply in [true, false] {
        let mut image = filled(2, 1, map, premultiply, 1.0, &TWO_PIXELS);
        assert!(begin(&mut image, &unassociate).is_none());
        assert_eq!(floats(&image), TWO_PIXELS);
        finish(&mut image, Some(vec![0; 6]), &mix, &associate);
        assert_eq!(floats(&image), TWO_PIXELS);
    }
}

#[test]
fn the_denoiser_gets_unpremultiplied_planar_colour() {
    let mut image = filled(2, 1, rgba_map(), true, 1.0, &TWO_PIXELS);
    let job = begin(&mut image, &unassociate).unwrap();
    assert_eq!((job.width, job.height, job.hdr, job.in_place), (2, 1, true, true));
    assert_eq!(job.color, [1.0f32, 0.5, 0.25, 0.3, 0.2, 0.1].map(bits));
    assert_eq!(job.albedo, None);
    assert_eq!(job.normal, None);
    assert_eq!(floats(&image), [1.0, 0.5, 0.25, 0.5, 0.3, 0.2, 0.1, 0.0]);
}

#[test]
fn the_denoiser_gets_the_guides_that_are_mapped() {
    let samples: Vec<f32> = (0..20).map(|i| i as f32).collect();
    let mut with_both = samples.clone();
    with_both[3] = 1.0;
    with_both[13] = 1.0;
    let mut image = filled(2, 1, full_map(), true, 0.5, &with_both);
    let job = begin(&mut image, &unassociate).unwrap();
    assert!(!job.in_place);
    assert_eq!(job.color, [0.0f32, 1.0, 2.0, 10.0, 11.0, 12.0].map(bits));
    assert_eq!(job.albedo, Some([4.0f32, 5.0, 6.0, 14.0, 15.0, 16.0].map(bits).to_vec()));
    assert_eq!(job.normal, Some([7.0f32, 8.0, 9.0, 17.0, 18.0, 19.0].map(bits).to_vec()));

    let only_normal = ChannelMap { albedo_index: None, ..full_map() };
    let mut image = filled(2, 1, only_normal, true, 0.5, &with_both);
    let job = begin(&mut image, &unassociate).unwrap();
    assert_eq!(job.albedo, None);
    assert_eq!(job.normal, None);

    let only_albedo = ChannelMap { normal_index: None, ..full_map() };
    let mut image = filled(2, 1, only_albedo, true, 0.5, &with_both);
    let job = begin(&mut image, &unassociate).unwrap();
    assert!(job.albedo.is_some());
    assert_eq!(job.normal, None);

    let normal_at_the_end = ChannelMap { normal_index: Some(8), ..full_map() };
    let mut image = filled(2, 1, normal_at_the_end, true, 0.5, &with_both);
    let job = begin(&mut image, &unassociate).unwrap();
    assert!(job.albedo.is_some());
    assert_eq!(job.normal, None);
}

#[test]
fn a_full_blend_takes_the_denoised_colour() {
    for denoise in [1.0f32, 2.0, f32::INFINITY] {
        let mut image = filled(2, 1, rgba_map(), false, denoise, &TWO_PIXELS);
        assert!(begin(&mut image, &unassociate).unwrap().in_place);
        let denoised = [9.0f32, 8.0, 7.0, 6.0, 5.0, 4.0].map(bits).to_vec();
        finish(&mut image, Some(denoised), &mix, &associate);
        assert_eq!(floats(&image), [9.0, 8.0, 7.0, 0.5, 6.0, 5.0, 4.0, 0.0]);
    }
}

#[test]
fn a_full_blend_is_premultiplied_again() {
    let mut image = filled(2, 1, rgba_map(), true, 1.0, &TWO_PIXELS);
    begin(&mut image, &unassociate).unwrap();
    let denoised = [9.0f32, 8.0, 7.0, 6.0, 5.0, 4.0].map(bits).to_vec();
    finish(&mut image, Some(denoised), &mix, &associate);
    assert_eq!(floats(&image), [4.5, 4.0, 3.5, 0.5, 0.0, 0.0, 0.0, 0.0]);
}

#[test]
fn a_partial_blend_mixes() {
    let mut image = filled(2, 1, rgba_map(), false, 0.25, &[1.0, 2.0, 4.0, 1.0, 8.0, 8.0, 8.0, 1.0]);
    assert!(!begin(&mut image, &unassociate).unwrap().in_place);
    let denoised = [5.0f32, 6.0, 8.0, 0.0, 4.0, 16.0].map(bits).to_vec();
    finish(&mut image, Some(denoised), &mix, &associate);
    assert_eq!(floats(&image), [2.0, 3.0, 5.0, 1.0, 6.0, 7.0, 10.0, 1.0]);
}

#[test]
fn a_blend_stays_between_what_was_and_what_came() {
    let colours = [0.0f32, 0.1, 0.37, 1.0, 2.5, 100.0, 1.0e-3];
    let blends = [1.0e-6f32, 0.1, 0.25, 0.5, 0.75, 0.9, 0.999999, 1.0];
    for blend in blends {
        for c in colours {
            for d in colours {
                let mut image = filled(1, 1, rgba_map(), false, blend, &[c, c, c, 1.0]);
                begin(&mut image, &unassociate).unwrap();
                finish(&mut image, Some(vec![bits(d); 3]), &mix, &associate);
                for k in 0..3 {
                    let out = f32::from_bits(image.buffer()[k]);
                    let slack = 2.0 * f32::EPSILON * c.max(d);
                    assert!(out >= c.min(d) - slack && out <= c.max(d) + slack, "{} {} {} {}", c, d, blend, out);
                }
            }
        }
    }
}

#[test]
fn a_failed_denoiser_leaves_the_colour() {
    for denoise in [0.5f32, 1.0] {
        let mut image = filled(2, 1, rgba_map(), true, denoise, &TWO_PIXELS);
        begin(&mut image, &unassociate).unwrap();
        finish(&mut image, None, &mix, &associate);
        assert_eq!(floats(&image), [0.5, 0.25, 0.125, 0.5, 0.0, 0.0, 0.0, 0.0]);

        let mut image = filled(2, 1, rgba_map(), false, denoise, &TWO_PIXELS);
        begin(&mut image, &unassociate).unwrap();
        finish(&mut image, None, &mix, &associate);
        assert_eq!(floats(&image), [1.0, 0.5, 0.25, 0.5, 0.3, 0.2, 0.1, 0.0]);
    }
}

#[test]
fn output_of_the_wrong_length_counts_as_failure() {
    for len in [0usize, 5, 7, 8] {
        let mut image = filled(2, 1, rgba_map(), false, 1.0, &TWO_PIXELS);
        begin(&mut image, &unassociate).unwrap();
        finish(&mut image, Some(vec![bits(9.0); len]), &mix, &associate);
        assert_eq!(floats(&image), [1.0, 0.5, 0.25, 0.5, 0.3, 0.2, 0.1, 0.0]);
    }
}

#[test]
fn finish_does_nothing_where_the_denoiser_is_off() {
    let mut image = filled(2, 1, rgba_map(), true, 0.0, &TWO_PIXELS);
    finish(&mut image, Some(vec![bits(9.0); 6]), &mix, &associate);
    assert_eq!(floats(&image), TWO_PIXELS);
}

#[test]
fn everything_but_the_buffer_is_kept() {
    let mut image = filled(2, 1, full_map(), true, 0.5, &[1.0; 20]);
    let job = begin(&mut image, &unassociate).unwrap();
    finish(&mut image, Some(job.color), &mix, &associate);
    assert_eq!((image.width(), image.height(), image.num_channels()), (2, 1, 10));
    assert_eq!((image.write_cursor(), image.finished_pixels(), image.total_pixels()), (20, 2, 2));
    assert_eq!(image.channels(), full_map());
    assert_eq!(image.denoise(), bits(0.5));
    assert_eq!(image.file_name(), "image.exr");
    assert_eq!(image.buffer().len(), 20);
}
