//! Captured video frames and their conversion to RGBA pixels.

use vstd::prelude::*;
use crate::text::{concat_str, decimal_digits, decimal_string};

verus! {

/// Pixel layout of a captured frame.
#[derive(Clone, Copy, Debug, PartialEq, Eq, Structural)]
pub enum PixelFormat {
    Bgra8888,
    Rgb888,
    Yuy2,
    Mjpeg,
}

/// A captured frame: geometry, row stride in bytes, layout and raw bytes.
#[derive(Clone, Debug)]
pub struct VideoFrame {
    pub seq: u64,
    pub width: u32,
    pub height: u32,
    pub stride: u32,
    pub pixel_format: PixelFormat,
    pub data: Vec<u8>,
}

/// Tightly packed RGBA8888 pixels, row by row.
#[derive(Clone, Debug, PartialEq, Eq)]
pub struct RgbaFrame {
    pub width: u32,
    pub height: u32,
    pub pixels: Vec<u8>,
}

/// Name of a pixel layout, as `Debug` prints it.
pub open spec fn format_name(format: PixelFormat) -> Seq<char> {
    match format {
        PixelFormat::Bgra8888 => "Bgra8888"@,
        PixelFormat::Rgb888 => "Rgb888"@,
        PixelFormat::Yuy2 => "Yuy2"@,
        PixelFormat::Mjpeg => "Mjpeg"@,
    }
}

/// Text of the error for a frame whose layout is not BGRA8888.
pub open spec fn unsupported_format_text(format: PixelFormat) -> Seq<char> {
    "unsupported preview pixel format: "@ + format_name(format)
}

/// Text of the error for a frame whose data is shorter than its geometry needs.
pub open spec fn too_short_text(need: nat, got: nat) -> Seq<char> {
    "frame data too short: need "@ + decimal_digits(need) + " bytes, got "@ + decimal_digits(got)
}

fn unsupported_format_message(format: PixelFormat) -> (s: String)
    ensures
        s@ == unsupported_format_text(format),
{
    let name = match format {
        PixelFormat::Bgra8888 => "Bgra8888",
        PixelFormat::Rgb888 => "Rgb888",
        PixelFormat::Yuy2 => "Yuy2",
        PixelFormat::Mjpeg => "Mjpeg",
    };
    concat_str("unsupported preview pixel format: ", name)
}

fn too_short_message(need: usize, got: usize) -> (s: String)
    ensures
        s@ == too_short_text(need as nat, got as nat),
{
    let mut s = concat_str("frame data too short: need ", decimal_string(need as u64).as_str());
    s.append(" bytes, got ");
    let got_text = decimal_string(got as u64);
    s.append(got_text.as_str());
    s
}

/// The BGRA channel that feeds RGBA channel `c`.
pub open spec fn bgra_channel(c: int) -> int {
    if c == 3 {
        3
    } else {
        2 - c
    }
}

/// Byte `c` of pixel (x, y) of the RGBA output comes from the swapped channel
/// of the same pixel in the strided BGRA input.
pub open spec fn rgba_byte_matches(
    pixels: Seq<u8>,
    data: Seq<u8>,
    width: int,
    stride: int,
    y: int,
    x: int,
    c: int,
) -> bool {
    pixels[(y * width + x) * 4 + c] == data[y * stride + x * 4 + bgra_channel(c)]
}

/// Bytes a strided frame of this geometry needs: every row but the last takes a
/// full stride, the last only its pixels.
pub open spec fn required_len(width: int, height: int, stride: int) -> int {
    if height == 0 {
        width * 4
    } else {
        stride * (height - 1) + width * 4
    }
}

proof fn lemma_earlier_index(w: int, yy: int, xx: int, c: int, y: int, x: int)
    requires
        0 <= xx < w,
        0 <= c < 4,
        0 <= yy,
        0 <= x,
        yy < y || (yy == y && xx < x),
    ensures
        (yy * w + xx) * 4 + c < (y * w + x) * 4,
{
    if yy < y {
        assert(yy * w + xx < y * w) by (nonlinear_arith)
            requires
                0 <= xx < w,
                yy < y,
                0 <= yy,
        ;
    }
}

proof fn lemma_row_start_bound(y: int, h: int, stride: int)
    requires
        0 <= y < h,
        0 <= stride,
    ensures
        y * stride <= stride * (h - 1),
        (y + 1) * stride == y * stride + stride,
{
    assert(y * stride <= stride * (h - 1)) by (nonlinear_arith)
        requires
            0 <= y < h,
            0 <= stride,
    ;
    assert((y + 1) * stride == y * stride + stride) by (nonlinear_arith);
}

/// Converts a BGRA8888 frame to packed RGBA8888, skipping the padding bytes at
/// the end of each row.
pub fn bgra_to_rgba(frame: &VideoFrame) -> (r: Result<RgbaFrame, String>)
    requires
        frame.width * 4 <= usize::MAX,
        frame.width * frame.height * 4 <= usize::MAX,
    ensures
        frame.pixel_format != PixelFormat::Bgra8888 ==> (r matches Err(e) && e@
            == unsupported_format_text(frame.pixel_format)),
        frame.pixel_format == PixelFormat::Bgra8888 && required_len(
            frame.width as int,
            frame.height as int,
            frame.stride as int,
        ) > usize::MAX ==> (r matches Err(e) && e@ == "frame stride or size overflow"@),
        frame.pixel_format == PixelFormat::Bgra8888 && required_len(
            frame.width as int,
            frame.height as int,
            frame.stride as int,
        ) <= usize::MAX && frame.data@.len() < required_len(
            frame.width as int,
            frame.height as int,
            frame.stride as int,
        ) ==> (r matches Err(e) && e@ == too_short_text(
            required_len(frame.width as int, frame.height as int, frame.stride as int) as nat,
            frame.data@.len(),
        )),
        r is Ok <==> (frame.pixel_format == PixelFormat::Bgra8888 && frame.data@.len()
            >= required_len(frame.width as int, frame.height as int, frame.stride as int)),
        r matches Ok(rgba) ==> {
            &&& rgba.width == frame.width
            &&& rgba.height == frame.height
            &&& rgba.pixels@.len() == frame.width * frame.height * 4
            &&& forall|y: int, x: int, c: int|
                0 <= y < frame.height && 0 <= x < frame.width && 0 <= c < 4
                    ==> #[trigger] rgba_byte_matches(
                    rgba.pixels@,
                    frame.data@,
                    frame.width as int,
                    frame.stride as int,
                    y,
                    x,
                    c,
                )
        },
{
    proof {
        reveal_strlit("frame stride or size overflow");
    }
    if frame.pixel_format != PixelFormat::Bgra8888 {
        return Err(unsupported_format_message(frame.pixel_format));
    }
    let data_len = frame.data.len();
    let width = frame.width as usize;
    let height = frame.height as usize;
    let stride = frame.stride as usize;
    let rows = if height == 0 { 0 } else { height - 1 };
    let row_bytes = width * 4;
    let required = match stride.checked_mul(rows) {
        Some(full) => full.checked_add(row_bytes),
        None => None,
    };
    let required = match required {
        Some(n) => n,
        None => {
            return Err(String::from_str("frame stride or size overflow"));
        },
    };
    if data_len < required {
        return Err(too_short_message(required, data_len));
    }
    let ghost w = width as int;
    let ghost h = height as int;
    let ghost s = stride as int;
    let ghost data = frame.data@;
    let mut pixels: Vec<u8> = Vec::new();
    let mut y: usize = 0;
    let mut row_start: usize = 0;
    while y < height
        invariant
            w == width,
            h == height,
            s == stride,
            data == frame.data@,
            row_bytes == width * 4,
            width * height * 4 <= usize::MAX,
            required == s * (h - 1) + w * 4 || h == 0,
            data.len() >= required,
            y <= height,
            y < height ==> row_start == y * s,
            pixels@.len() == (y * w) * 4,
            forall|yy: int, xx: int, c: int|
                0 <= yy < y && 0 <= xx < w && 0 <= c < 4 ==> #[trigger] rgba_byte_matches(
                    pixels@,
                    data,
                    w,
                    s,
                    yy,
                    xx,
                    c,
                ),
        decreases height - y,
    {
        proof {
            lemma_row_start_bound(y as int, h, s);
        }
        let mut x: usize = 0;
        while x < width
            invariant
                w == width,
                h == height,
                s == stride,
                data == frame.data@,
                row_bytes == width * 4,
                width * height * 4 <= usize::MAX,
                required == s * (h - 1) + w * 4,
                data.len() >= required,
                y < height,
                row_start == y * s,
                row_start <= s * (h - 1),
                x <= width,
                pixels@.len() == (y * w + x) * 4,
                forall|yy: int, xx: int, c: int|
                    0 <= yy && 0 <= xx < w && 0 <= c < 4 && (yy < y || (yy == y && xx < x))
                        ==> #[trigger] rgba_byte_matches(pixels@, data, w, s, yy, xx, c),
            decreases width - x,
        {
            let src = row_start + x * 4;
            assert(src + 3 < data.len());
            let ghost before = pixels@;
            let b = frame.data[src];
            let g = frame.data[src + 1];
            let red = frame.data[src + 2];
            let a = frame.data[src + 3];
            pixels.push(red);
            pixels.push(g);
            pixels.push(b);
            pixels.push(a);
            proof {
                assert((y * w + x + 1) * 4 == (y * w + x) * 4 + 4);
                assert forall|yy: int, xx: int, c: int|
                    0 <= yy && 0 <= xx < w && 0 <= c < 4 && (yy < y || (yy == y && xx < x + 1))
                        implies #[trigger] rgba_byte_matches(pixels@, data, w, s, yy, xx, c) by {
                    if yy == y && xx == x {
                        assert(pixels@[(yy * w + xx) * 4 + c] == pixels@[before.len() + c]);
                    } else {
                        lemma_earlier_index(w, yy, xx, c, y as int, x as int);
                        assert(pixels@[(yy * w + xx) * 4 + c] == before[(yy * w + xx) * 4 + c]);
                        assert(rgba_byte_matches(before, data, w, s, yy, xx, c));
                    }
                }
            }
            x = x + 1;
        }
        proof {
            assert((y * w + w) * 4 == ((y + 1) * w) * 4) by (nonlinear_arith);
        }
        y = y + 1;
        if y < height {
            proof {
                lemma_row_start_bound(y as int, h, s);
                assert(row_start + s == y * s) by (nonlinear_arith)
                    requires
                        row_start == (y - 1) * s,
                ;
            }
            row_start = row_start + stride;
        }
    }
    proof {
        assert(pixels@.len() == w * h * 4) by (nonlinear_arith)
            requires
                pixels@.len() == (y * w) * 4,
                y == h,
        ;
    }
    Ok(RgbaFrame { width: frame.width, height: frame.height, pixels })
}

} // verus!
