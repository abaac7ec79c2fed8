use r_display::encoding::{
    parse_compression, parse_line_order, parse_tile_size, resolve_encoding, Compression, Encoding,
    LineOrder, TileSize,
};

#[test]
fn compression_names() {
    assert_eq!(parse_compression("none"), Some(Compression::Uncompressed));
    assert_eq!(parse_compression("rle"), Some(Compression::RLE));
    assert_eq!(parse_compression("piz"), Some(Compression::PIZ));
    assert_eq!(parse_compression("pxr24"), Some(Compression::PXR24));
    assert_eq!(parse_compression("zip"), Some(Compression::ZIP16));
}

#[test]
fn compression_names_in_any_case() {
    assert_eq!(parse_compression("NONE"), Some(Compression::Uncompressed));
    assert_eq!(parse_compression("Rle"), Some(Compression::RLE));
    assert_eq!(parse_compression("pIz"), Some(Compression::PIZ));
    assert_eq!(parse_compression("PXR24"), Some(Compression::PXR24));
    assert_eq!(parse_compression("ZiP"), Some(Compression::ZIP16));
}

#[test]
fn unknown_compression_names() {
    for name in ["", "zip16", "zi", "zipp", " zip", "zip ", "b44", "p\u{131}z", "z\u{ee}p", "zip\u{0}", "pxr\u{12}\u{14}", "[IP"] {
        assert_eq!(parse_compression(name), None, "{:?}", name);
    }
}

#[test]
fn line_order_names() {
    assert_eq!(parse_line_order("increasing"), Some(LineOrder::Increasing));
    assert_eq!(parse_line_order("decreasing"), Some(LineOrder::Decreasing));
    assert_eq!(parse_line_order("INCREASING"), Some(LineOrder::Increasing));
    assert_eq!(parse_line_order("Decreasing"), Some(LineOrder::Decreasing));
    for name in ["", "unspecified", "increasin", "increasingg", "random", "d\u{e9}creasing"] {
        assert_eq!(parse_line_order(name), None, "{:?}", name);
    }
}

#[test]
fn tile_sizes_must_be_positive() {
    assert_eq!(parse_tile_size(32, 16), Some(TileSize { width: 32, height: 16 }));
    assert_eq!(parse_tile_size(1, 1), Some(TileSize { width: 1, height: 1 }));
    assert_eq!(
        parse_tile_size(i32::MAX, i32::MAX),
        Some(TileSize { width: i32::MAX as usize, height: i32::MAX as usize })
    );
    assert_eq!(parse_tile_size(0, 16), None);
    assert_eq!(parse_tile_size(16, 0), None);
    assert_eq!(parse_tile_size(-1, 16), None);
    assert_eq!(parse_tile_size(16, i32::MIN), None);
}

#[test]
fn line_order_defaults_to_what_the_encoder_proposes() {
    let expected = [
        (Compression::Uncompressed, LineOrder::Increasing),
        (Compression::RLE, LineOrder::Unspecified),
        (Compression::PIZ, LineOrder::Unspecified),
        (Compression::PXR24, LineOrder::Unspecified),
        (Compression::ZIP16, LineOrder::Increasing),
    ];
    for (compression, line_order) in expected {
        assert_eq!(
            resolve_encoding(compression, None, None),
            Encoding { compression, line_order, tile_size: None }
        );
    }
}

#[test]
fn what_was_asked_for_is_kept() {
    let tile = Some(TileSize { width: 64, height: 32 });
    for compression in [Compression::Uncompressed, Compression::RLE, Compression::ZIP16] {
        for line_order in [LineOrder::Increasing, LineOrder::Decreasing, LineOrder::Unspecified] {
            assert_eq!(
                resolve_encoding(compression, Some(line_order), tile),
                Encoding { compression, line_order, tile_size: tile }
            );
        }
    }
}
