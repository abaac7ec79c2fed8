use r_display::channels::{Format, FLOAT32};
use r_display::driver::{
    denoiser_returned, encoder_returned, expected_samples, CloseAction, Driver, DriverState,
    DspyImageClose, DspyImageData, DspyImageOpen, DspyImageQuery, PostState, QueryAnswer,
    QueryType, SizeInfo, IMAGE_HANDLE, WANTS_SCANLINE_ORDER,
};
use r_display::encoding::{Compression, LineOrder, TileSize};
use r_display::error::DspyError;
use r_display::params::{ParameterValue, UserParameter};

fn bits(x: f32) -> u32 {
    x.to_bits()
}

fn unassociate(c: u32, a: u32) -> u32 {
    (f32::from_bits(c) * (1.0 / f32::from_bits(a))).to_bits()
}

fn associate(c: u32, a: u32) -> u32 {
    (f32::from_bits(c) * f32::from_bits(a)).to_bits()
}

fn mix(x: u32, d: u32, blend: u32) -> u32 {
    let b = f32::from_bits(blend);
    (f32::from_bits(x) * (1.0 - b) + f32::from_bits(d) * b).to_bits()
}

fn formats(names: &[&str]) -> Vec<Format> {
    names.iter().map(|n| Format { name: n.to_string(), type_: 0 }).collect()
}

fn integer(name: &str, v: i32) -> UserParameter {
    UserParameter {
        name: name.to_string(),
        value_type: b'i',
        value_count: 1,
        value: ParameterValue::Integers(vec![v]),
    }
}

fn integers(name: &str, v: &[i32]) -> UserParameter {
    UserParameter {
        name: name.to_string(),
        value_type: b'i',
        value_count: v.len() as i32,
        value: ParameterValue::Integers(v.to_vec()),
    }
}

fn float(name: &str, v: f32) -> UserParameter {
    UserParameter {
        name: name.to_string(),
        value_type: b'f',
        value_count: 1,
        value: ParameterValue::Floats(vec![v.to_bits()]),
    }
}

fn string(name: &str, v: &str) -> UserParameter {
    UserParameter {
        name: name.to_string(),
        value_type: b's',
        value_count: 1,
        value: ParameterValue::Strings(vec![v.to_string()]),
    }
}

fn open(
    width: i32,
    height: i32,
    parameter: Vec<UserParameter>,
    names: &[&str],
) -> (Driver, Vec<Format>, i32) {
    let mut driver = Driver::new();
    let mut format = formats(names);
    let mut flags = 0;
    let report = DspyImageOpen(
        &mut driver,
        Some("image.exr"),
        width,
        height,
        &parameter,
        &mut format,
        &mut flags,
    )
    .unwrap();
    assert_eq!(report.image_handle, IMAGE_HANDLE);
    (driver, format, flags)
}

fn fill(driver: &mut Driver, width: i32, height: i32, pixel: &[u32]) {
    for y in 0..height {
        for x in 0..width {
            assert_eq!(
                expected_samples(driver, IMAGE_HANDLE, x, x + 1, y, y + 1),
                Some(pixel.len())
            );
            assert_eq!(
                DspyImageData(
                    driver,
                    IMAGE_HANDLE,
                    x,
                    x + 1,
                    y,
                    y + 1,
                    4 * pixel.len() as i32,
                    Some(pixel)
                ),
                DspyError::NoError
            );
        }
    }
}

#[test]
fn four_single_pixel_tiles_make_an_image() {
    let (mut driver, format, flags) = open(2, 2, vec![], &["r", "g", "b", "a"]);
    assert!(format.iter().all(|f| f.type_ == FLOAT32));
    assert_eq!(flags & WANTS_SCANLINE_ORDER, WANTS_SCANLINE_ORDER);
    assert_eq!(driver.state(), DriverState::Open);
    let pixel = [bits(0.1), bits(0.2), bits(0.3), bits(1.0)];
    fill(&mut driver, 2, 2, &pixel);
    assert_eq!(driver.state(), DriverState::Receiving);
    {
        let image = driver.image().unwrap();
        assert_eq!(image.buffer().len(), 16);
        assert_eq!(image.write_cursor(), 16);
        assert_eq!(image.finished_pixels(), 4);
        assert_eq!(image.total_pixels(), 4);
    }
    let job = match DspyImageClose(&mut driver, IMAGE_HANDLE, &unassociate) {
        CloseAction::Denoise(job) => job,
        other => panic!("unexpected action {:?}", other),
    };
    assert_eq!(driver.state(), DriverState::Closing);
    assert_eq!(driver.post(), PostState::Processing);
    assert_eq!((job.width, job.height, job.hdr, job.in_place), (2, 2, true, true));
    assert_eq!(job.color, [bits(0.1), bits(0.2), bits(0.3)].repeat(4));
    assert!(job.albedo.is_none() && job.normal.is_none());
    let job = match denoiser_returned(&mut driver, Some(job.color.clone()), &mix, &associate) {
        CloseAction::Encode(job) => job,
        other => panic!("unexpected action {:?}", other),
    };
    assert_eq!(job.file_name, "image.exr");
    assert_eq!((job.width, job.height), (2, 2));
    assert_eq!(job.camera.pixel_aspect, bits(1.0));
    assert_eq!(job.encoding.compression, Compression::ZIP16);
    assert_eq!(job.encoding.line_order, LineOrder::Increasing);
    assert_eq!(job.encoding.tile_size, None);
    assert!(!job.field_of_view);
    for y in 0..2 {
        for x in 0..2 {
            assert_eq!(driver.image().unwrap().rgba(x, y), Some(pixel));
        }
    }
    assert_eq!(driver.image().unwrap().rgba(2, 0), None);
    assert_eq!(encoder_returned(&mut driver, true), DspyError::NoError);
    assert_eq!(driver.state(), DriverState::Destroyed);
    assert!(driver.image().is_none());
}

#[test]
fn unpremultiplied_output_divides_colour_by_alpha() {
    let (mut driver, _, _) = open(2, 2, vec![integer("premultiply", 0)], &["r", "g", "b", "a"]);
    fill(&mut driver, 2, 2, &[bits(0.5), bits(0.5), bits(0.5), bits(0.5)]);
    let job = match DspyImageClose(&mut driver, IMAGE_HANDLE, &unassociate) {
        CloseAction::Denoise(job) => job,
        other => panic!("unexpected action {:?}", other),
    };
    assert_eq!(job.color, vec![bits(1.0); 12]);
    match denoiser_returned(&mut driver, None, &mix, &associate) {
        CloseAction::Encode(_) => {}
        other => panic!("unexpected action {:?}", other),
    }
    for y in 0..2 {
        for x in 0..2 {
            assert_eq!(
                driver.image().unwrap().rgba(x, y),
                Some([bits(1.0), bits(1.0), bits(1.0), bits(0.5)])
            );
        }
    }
}

#[test]
fn encoding_parameters_reach_the_encoder() {
    let parameter = vec![
        string("compression", "piz"),
        string("line_order", "decreasing"),
        integers("tile_size", &[32, 32]),
        float("denoise", 0.0),
    ];
    let (mut driver, _, _) = open(1, 1, parameter, &["r", "g", "b", "a"]);
    fill(&mut driver, 1, 1, &[bits(0.25), bits(0.5), bits(0.75), bits(1.0)]);
    let job = match DspyImageClose(&mut driver, IMAGE_HANDLE, &unassociate) {
        CloseAction::Encode(job) => job,
        other => panic!("unexpected action {:?}", other),
    };
    assert_eq!(job.encoding.compression, Compression::PIZ);
    assert_eq!(job.encoding.line_order, LineOrder::Decreasing);
    assert_eq!(job.encoding.tile_size, Some(TileSize { width: 32, height: 32 }));
}

#[test]
fn missing_alpha_skips_the_file() {
    let (mut driver, _, _) = open(1, 1, vec![float("denoise", 0.0)], &["r", "g", "b"]);
    fill(&mut driver, 1, 1, &[bits(0.25), bits(0.5), bits(0.75)]);
    match DspyImageClose(&mut driver, IMAGE_HANDLE, &unassociate) {
        CloseAction::Finish(DspyError::NoError) => {}
        other => panic!("unexpected action {:?}", other),
    }
    assert_eq!(driver.state(), DriverState::Destroyed);
    assert!(driver.image().is_none());
}

#[test]
fn missing_alpha_skips_the_file_after_denoising() {
    let (mut driver, _, _) = open(1, 1, vec![], &["r", "g", "b"]);
    fill(&mut driver, 1, 1, &[bits(0.25), bits(0.5), bits(0.75)]);
    let job = match DspyImageClose(&mut driver, IMAGE_HANDLE, &unassociate) {
        CloseAction::Denoise(job) => job,
        other => panic!("unexpected action {:?}", other),
    };
    match denoiser_returned(&mut driver, Some(job.color), &mix, &associate) {
        CloseAction::Finish(DspyError::NoError) => {}
        other => panic!("unexpected action {:?}", other),
    }
    assert_eq!(driver.state(), DriverState::Destroyed);
}

#[test]
fn half_blend_with_albedo_guide() {
    let names = ["r", "g", "b", "a", "albedo.000.r", "albedo.000.g", "albedo.000.b"];
    let (mut driver, _, _) = open(2, 1, vec![float("denoise", 0.5)], &names);
    let first = [0.5f32, 0.25, 0.125, 1.0, 0.9, 0.8, 0.7].map(bits);
    let second = [1.0f32, 2.0, 4.0, 1.0, 0.6, 0.5, 0.4].map(bits);
    assert_eq!(
        DspyImageData(&mut driver, IMAGE_HANDLE, 0, 1, 0, 1, 28, Some(&first)),
        DspyError::NoError
    );
    assert_eq!(
        DspyImageData(&mut driver, IMAGE_HANDLE, 1, 2, 0, 1, 28, Some(&second)),
        DspyError::NoError
    );
    let job = match DspyImageClose(&mut driver, IMAGE_HANDLE, &unassociate) {
        CloseAction::Denoise(job) => job,
        other => panic!("unexpected action {:?}", other),
    };
    assert!(!job.in_place);
    assert_eq!(job.color, [0.5f32, 0.25, 0.125, 1.0, 2.0, 4.0].map(bits));
    assert_eq!(job.albedo, Some([0.9f32, 0.8, 0.7, 0.6, 0.5, 0.4].map(bits).to_vec()));
    assert_eq!(job.normal, None);
    let denoised = [1.5f32, 0.75, 0.375, 3.0, 1.0, 0.0].map(bits).to_vec();
    match denoiser_returned(&mut driver, Some(denoised), &mix, &associate) {
        CloseAction::Encode(_) => {}
        other => panic!("unexpected action {:?}", other),
    }
    let image = driver.image().unwrap();
    assert_eq!(image.rgba(0, 0), Some([1.0f32, 0.5, 0.25, 1.0].map(bits)));
    assert_eq!(image.rgba(1, 0), Some([2.0f32, 1.5, 2.0, 1.0].map(bits)));
    assert_eq!(&image.buffer()[4..7], &[0.9f32, 0.8, 0.7].map(bits));
}

#[test]
fn size_query_before_and_after_open() {
    let driver = Driver::new();
    assert_eq!(
        DspyImageQuery(&driver, 0, QueryType::Size, true),
        Ok(QueryAnswer::Size(SizeInfo { width: 1920, height: 1080, aspect_ratio: bits(1.0) }))
    );
    let parameter = vec![float("PixelAspectRatio", 2.0)];
    let (driver, _, _) = open(800, 600, parameter, &["r", "g", "b", "a"]);
    assert_eq!(
        DspyImageQuery(&driver, IMAGE_HANDLE, QueryType::Size, true),
        Ok(QueryAnswer::Size(SizeInfo { width: 800, height: 600, aspect_ratio: bits(2.0) }))
    );
    let (driver, _, _) = open(800, 600, vec![], &["r", "g", "b", "a"]);
    assert_eq!(
        DspyImageQuery(&driver, IMAGE_HANDLE, QueryType::Size, true),
        Ok(QueryAnswer::Size(SizeInfo { width: 800, height: 600, aspect_ratio: bits(1.0) }))
    );
}
