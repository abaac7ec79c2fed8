//! How the image file is to be laid out: compression, line order and tiling.

use vstd::prelude::*;
use vstd::string::is_ascii;
use vstd::string::StringSliceAdditionalSpecFns;

verus! {

/// The compression methods that can be asked for.
#[derive(Clone, Copy, Debug, PartialEq, Eq, Structural)]
pub enum Compression {
    Uncompressed,
    RLE,
    PIZ,
    PXR24,
    ZIP16,
}

/// The order in which the blocks of the file follow each other.
#[derive(Clone, Copy, Debug, PartialEq, Eq, Structural)]
pub enum LineOrder {
    Increasing,
    Decreasing,
    Unspecified,
}

/// Width and height of the tiles of a tiled file, both positive.
#[derive(Clone, Copy, Debug, PartialEq, Eq, Structural)]
pub struct TileSize {
    pub width: usize,
    pub height: usize,
}

/// The layout of a file, with nothing left open.
#[derive(Clone, Copy, Debug, PartialEq, Eq, Structural)]
pub struct Encoding {
    pub compression: Compression,
    pub line_order: LineOrder,
    /// `None` asks for scan lines.
    pub tile_size: Option<TileSize>,
}

/// `c` is `w`, or the upper-case form of the lower-case letter `w`.
pub open spec fn same_letter(c: char, w: char) -> bool {
    c == w || ('A' <= c && c <= 'Z' && c as u32 + 32 == w as u32)
}

/// `name` reads as the lower-case ASCII word `word` when the case of its
/// letters is disregarded.
pub open spec fn reads_as(name: Seq<char>, word: Seq<char>) -> bool {
    name.len() == word.len() && forall|i: int|
        0 <= i < name.len() ==> same_letter(#[trigger] name[i], word[i])
}

/// The compression that a name stands for.
pub open spec fn compression_named(name: Seq<char>) -> Option<Compression> {
    if reads_as(name, "none"@) {
        Some(Compression::Uncompressed)
    } else if reads_as(name, "rle"@) {
        Some(Compression::RLE)
    } else if reads_as(name, "piz"@) {
        Some(Compression::PIZ)
    } else if reads_as(name, "pxr24"@) {
        Some(Compression::PXR24)
    } else if reads_as(name, "zip"@) {
        Some(Compression::ZIP16)
    } else {
        None
    }
}

/// The line order that a name stands for.
pub open spec fn line_order_named(name: Seq<char>) -> Option<LineOrder> {
    if reads_as(name, "increasing"@) {
        Some(LineOrder::Increasing)
    } else if reads_as(name, "decreasing"@) {
        Some(LineOrder::Decreasing)
    } else {
        None
    }
}

/// The tile size that a pair of integers stands for: both must be positive.
pub open spec fn tile_size_of(width: i32, height: i32) -> Option<TileSize> {
    if width > 0 && height > 0 {
        Some(TileSize { width: width as usize, height: height as usize })
    } else {
        None
    }
}

/// The line order that the encoder picks for a compression when none was asked for.
pub open spec fn default_line_order(compression: Compression) -> LineOrder {
    match compression {
        Compression::Uncompressed | Compression::ZIP16 => LineOrder::Increasing,
        Compression::RLE | Compression::PIZ | Compression::PXR24 => LineOrder::Unspecified,
    }
}

/// The layout that results from what was asked for.
pub open spec fn encoding_for(
    compression: Compression,
    line_order: Option<LineOrder>,
    tile_size: Option<TileSize>,
) -> Encoding {
    Encoding {
        compression,
        line_order: match line_order {
            Some(order) => order,
            None => default_line_order(compression),
        },
        tile_size,
    }
}

fn reads_as_word(name: &str, word: &str) -> (r: bool)
    requires
        is_ascii(word),
    ensures
        r == reads_as(name@, word@),
{
    broadcast use vstd::string::is_ascii_spec_bytes;

    if !name.is_ascii() {
        proof {
            if reads_as(name@, word@) {
                let i = choose|i: int|
                    0 <= i < name@.len() && !('\0' <= #[trigger] name@[i] <= '\u{7f}');
                assert(same_letter(name@[i], word@[i]));
                assert('\0' <= word@[i] <= '\u{7f}');
            }
        }
        return false;
    }
    proof {
        assert(is_ascii(name));
        assert(name.spec_bytes().len() == name@.len());
        assert(word.spec_bytes().len() == word@.len());
    }
    let n = name.as_bytes().len();
    if n != word.as_bytes().len() {
        return false;
    }
    let mut i: usize = 0;
    while i < n
        invariant
            i <= n,
            n == name@.len(),
            n == word@.len(),
            is_ascii(name),
            is_ascii(word),
            forall|j: int| 0 <= j < i ==> same_letter(#[trigger] name@[j], word@[j]),
        decreases n - i,
    {
        let c = name.get_ascii(i);
        let w = word.get_ascii(i);
        proof {
            assert('\0' <= name@[i as int] <= '\u{7f}');
            assert('\0' <= word@[i as int] <= '\u{7f}');
        }
        if !(c == w || (0x41 <= c && c <= 0x5a && c + 32 == w)) {
            proof {
                assert(!same_letter(name@[i as int], word@[i as int]));
            }
            return false;
        }
        i += 1;
    }
    true
}

/// Reads the name of a compression method, whatever the case of its
/// letters: `none`, `rle`, `piz`, `pxr24` or `zip`.
pub fn parse_compression(name: &str) -> (r: Option<Compression>)
    ensures
        r == compression_named(name@),
{
    proof {
        reveal_strlit("none");
        reveal_strlit("rle");
        reveal_strlit("piz");
        reveal_strlit("pxr24");
        reveal_strlit("zip");
    }
    if reads_as_word(name, "none") {
        Some(Compression::Uncompressed)
    } else if reads_as_word(name, "rle") {
        Some(Compression::RLE)
    } else if reads_as_word(name, "piz") {
        Some(Compression::PIZ)
    } else if reads_as_word(name, "pxr24") {
        Some(Compression::PXR24)
    } else if reads_as_word(name, "zip") {
        Some(Compression::ZIP16)
    } else {
        None
    }
}

/// Reads the name of a line order, whatever the case of its letters:
/// `increasing` or `decreasing`.
pub fn parse_line_order(name: &str) -> (r: Option<LineOrder>)
    ensures
        r == line_order_named(name@),
{
    proof {
        reveal_strlit("increasing");
        reveal_strlit("decreasing");
    }
    if reads_as_word(name, "increasing") {
        Some(LineOrder::Increasing)
    } else if reads_as_word(name, "decreasing") {
        Some(LineOrder::Decreasing)
    } else {
        None
    }
}

/// Reads a tile size from the two integers of the parameter.
pub fn parse_tile_size(width: i32, height: i32) -> (r: Option<TileSize>)
    ensures
        r == tile_size_of(width, height),
{
    if width > 0 && height > 0 {
        Some(TileSize { width: width as usize, height: height as usize })
    } else {
        None
    }
}

/// The line order of the encoding that
/// `exr::image::rgba::Encoding::for_compression` proposes.
///
/// Taken on trust, as read in that function's source: the order is
/// increasing for uncompressed and for ZIP files and unspecified for RLE,
/// PIZ and PXR24 files.
#[verifier::external_body]
fn line_order_for_compression(compression: Compression) -> (order: LineOrder)
    ensures
        order == default_line_order(compression),
{
    let outside = match compression {
        Compression::Uncompressed => exr::compression::Compression::Uncompressed,
        Compression::RLE => exr::compression::Compression::RLE,
        Compression::PIZ => exr::compression::Compression::PIZ,
        Compression::PXR24 => exr::compression::Compression::PXR24,
        Compression::ZIP16 => exr::compression::Compression::ZIP16,
    };
    match exr::image::rgba::Encoding::for_compression(outside).line_order {
        exr::meta::attribute::LineOrder::Increasing => LineOrder::Increasing,
        exr::meta::attribute::LineOrder::Decreasing => LineOrder::Decreasing,
        exr::meta::attribute::LineOrder::Unspecified => LineOrder::Unspecified,
    }
}

/// Settles the layout of the file: the line order is the one asked for or,
/// where none was, the one the encoder proposes for the compression; the
/// tiling is the one asked for.
pub fn resolve_encoding(
    compression: Compression,
    line_order: Option<LineOrder>,
    tile_size: Option<TileSize>,
) -> (encoding: Encoding)
    ensures
        encoding == encoding_for(compression, line_order, tile_size),
{
    let line_order = match line_order {
        Some(order) => order,
        None => line_order_for_compression(compression),
    };
    Encoding { compression, line_order, tile_size }
}

} // verus!
