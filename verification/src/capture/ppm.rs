//! Binary PPM images, as `grim -t ppm` writes them.
use crate::capture::frame::{
    invalid_frame, CaptureError, FrameFormat, OwnedFrame, PixelFormat,
};
use crate::capture::frame;
use crate::encoding;
use crate::text;
use vstd::prelude::*;
use vstd::slice::{slice_subrange, slice_to_vec};

verus! {

/// Whether a byte is ASCII white space.
pub open spec fn is_space(b: u8) -> bool {
    b == 32 || b == 9 || b == 10 || b == 12 || b == 13
}

/// The first place from `i` on that is not white space.
pub open spec fn spaces_end(data: Seq<u8>, i: int) -> int
    decreases data.len() - i,
{
    if 0 <= i < data.len() && is_space(data[i]) {
        spaces_end(data, i + 1)
    } else {
        i
    }
}

/// The first line feed from `i` on, or the end.
pub open spec fn comment_end(data: Seq<u8>, i: int) -> int
    decreases data.len() - i,
{
    if 0 <= i < data.len() && data[i] != 10 {
        comment_end(data, i + 1)
    } else {
        i
    }
}

/// White space ends at or behind its start, within the data.
pub proof fn lemma_spaces_end(data: Seq<u8>, i: int)
    ensures
        i <= spaces_end(data, i),
        0 <= i <= data.len() ==> spaces_end(data, i) <= data.len(),
    decreases data.len() - i,
{
    if 0 <= i < data.len() && is_space(data[i]) {
        lemma_spaces_end(data, i + 1);
    }
}

/// A comment ends at or behind its start, within the data.
pub proof fn lemma_comment_end(data: Seq<u8>, i: int)
    ensures
        i <= comment_end(data, i),
        0 <= i <= data.len() ==> comment_end(data, i) <= data.len(),
    decreases data.len() - i,
{
    if 0 <= i < data.len() && data[i] != 10 {
        lemma_comment_end(data, i + 1);
    }
}

/// The first place from `i` on behind white space and comments; a comment runs
/// from a number sign to the end of its line.
pub open spec fn layout_end(data: Seq<u8>, i: int) -> int
    decreases data.len() - i,
{
    let j = spaces_end(data, i);
    if 0 <= j < data.len() && data[j] == 35 {
        proof {
            lemma_spaces_end(data, i);
            lemma_comment_end(data, j + 1);
        }
        layout_end(data, comment_end(data, j))
    } else {
        j
    }
}

/// The first white space or number sign from `i` on, or the end.
pub open spec fn token_end(data: Seq<u8>, i: int) -> int
    decreases data.len() - i,
{
    if 0 <= i < data.len() && !is_space(data[i]) && data[i] != 35 {
        token_end(data, i + 1)
    } else {
        i
    }
}

/// The bounds of the next token, if there is one.
pub open spec fn next_token(data: Seq<u8>, i: int) -> Option<(int, int)> {
    let start = layout_end(data, i);
    let end = token_end(data, start);
    if start == end {
        None
    } else {
        Some((start, end))
    }
}

/// The next token as a number, and the place behind it.
pub open spec fn next_number(data: Seq<u8>, i: int, name: Seq<char>) -> Result<
    (nat, int),
    Seq<char>,
> {
    match next_token(data, i) {
        None => Err("PPM header is incomplete"@),
        Some((start, end)) => {
            let token = data.subrange(start, end);
            if !vstd::utf8::valid_utf8(token) {
                Err("PPM "@ + name + " is not text"@)
            } else {
                match text::unsigned_value(token, usize::MAX as nat) {
                    Some(value) => Ok((value, end)),
                    None => Err("PPM "@ + name + " is invalid"@),
                }
            }
        },
    }
}

/// Where the pixels begin: behind one white-space byte, or a carriage return
/// with its line feed.
pub open spec fn raster_start(data: Seq<u8>, i: int) -> Option<int> {
    if 0 <= i && i + 1 < data.len() && data[i] == 13 && data[i + 1] == 10 {
        Some(i + 2)
    } else if 0 <= i < data.len() && is_space(data[i]) {
        Some(i + 1)
    } else {
        None
    }
}

/// The header of an image: its width, height, largest color value, and the
/// place behind them.
pub struct PpmHeader {
    pub width: nat,
    pub height: nat,
    pub maximum: nat,
    pub end: int,
}

/// Reads the header of an image.
pub open spec fn ppm_header(data: Seq<u8>) -> Result<PpmHeader, Seq<char>> {
    match next_token(data, 0) {
        None => Err("PPM header is incomplete"@),
        Some((start, end)) => if data.subrange(start, end) != seq![80u8, 54u8] {
            Err("PPM magic must be P6"@)
        } else {
            match next_number(data, end, "width"@) {
                Err(message) => Err(message),
                Ok((width, after_width)) => match next_number(data, after_width, "height"@) {
                    Err(message) => Err(message),
                    Ok((height, after_height)) => match next_number(
                        data,
                        after_height,
                        "maximum color value"@,
                    ) {
                        Err(message) => Err(message),
                        Ok((maximum, end)) => Ok(PpmHeader { width, height, maximum, end }),
                    },
                },
            }
        },
    }
}

/// Reads an image: its dimensions and the place where its pixels begin.
pub open spec fn ppm_image(data: Seq<u8>) -> Result<(nat, nat, int), Seq<char>> {
    match ppm_header(data) {
        Err(message) => Err(message),
        Ok(header) => if header.width == 0 || header.height == 0 || header.maximum != 255 {
            Err("PPM dimensions or maximum color value are invalid"@)
        } else {
            match raster_start(data, header.end) {
                None => Err("PPM raster separator is missing"@),
                Some(start) => {
                    let stride = 3 * header.width;
                    let size = stride * header.height;
                    if stride > usize::MAX {
                        Err("PPM row size overflows"@)
                    } else if size > usize::MAX || start + size > usize::MAX {
                        Err("PPM image size overflows"@)
                    } else if start + size > data.len() {
                        Err("PPM image is truncated"@)
                    } else if header.width > u32::MAX {
                        Err("PPM width is too large"@)
                    } else if header.height > u32::MAX {
                        Err("PPM height is too large"@)
                    } else if stride > i32::MAX {
                        Err("PPM stride is too large"@)
                    } else {
                        Ok((header.width, header.height, start))
                    }
                },
            }
        },
    }
}

/// The frame of an image with these dimensions whose pixels begin at `start`.
pub open spec fn ppm_frame(data: Seq<u8>, width: nat, height: nat, start: int) -> frame::OwnedFrameView {
    frame::OwnedFrameView {
        format: FrameFormat {
            width: width as u32,
            height: height as u32,
            stride: (3 * width) as i32,
            pixel_format: PixelFormat::Rgb,
        },
        data: data.subrange(start, start + 3 * width * height),
    }
}

fn is_space_byte(b: u8) -> (r: bool)
    ensures
        r == is_space(b),
{
    b == 32 || b == 9 || b == 10 || b == 12 || b == 13
}

fn skip_layout(data: &[u8], from: usize) -> (r: usize)
    requires
        from <= data@.len(),
    ensures
        r == layout_end(data@, from as int),
        from <= r <= data@.len(),
{
    let mut cursor: usize = from;
    loop
        invariant
            from <= cursor <= data@.len(),
            layout_end(data@, cursor as int) == layout_end(data@, from as int),
        decreases data@.len() - cursor,
    {
        let ghost begin = cursor as int;
        while cursor < data.len() && is_space_byte(data[cursor])
            invariant
                from <= begin <= cursor <= data@.len(),
                spaces_end(data@, cursor as int) == spaces_end(data@, begin),
            decreases data@.len() - cursor,
        {
            cursor += 1;
        }
        if cursor >= data.len() || data[cursor] != 35 {
            return cursor;
        }
        let ghost hash = cursor as int;
        while cursor < data.len() && data[cursor] != 10
            invariant
                from <= begin <= hash <= cursor <= data@.len(),
                hash < data@.len(),
                data@[hash] == 35,
                comment_end(data@, cursor as int) == comment_end(data@, hash),
            decreases data@.len() - cursor,
        {
            cursor += 1;
        }
        assert(cursor > hash);
    }
}

fn token(data: &[u8], from: usize) -> (r: Result<(usize, usize), CaptureError>)
    requires
        from <= data@.len(),
    ensures
        r is Ok <==> next_token(data@, from as int) is Some,
        r matches Ok((start, end)) ==> next_token(data@, from as int) == Some(
            (start as int, end as int),
        ) && start < end <= data@.len(),
        r matches Err(error) ==> error.deep_view() == frame::CaptureErrorView::InvalidFrame(
            "PPM header is incomplete"@,
        ),
{
    let start: usize = skip_layout(data, from);
    let mut cursor: usize = start;
    while cursor < data.len() && !is_space_byte(data[cursor]) && data[cursor] != 35
        invariant
            start <= cursor <= data@.len(),
            token_end(data@, cursor as int) == token_end(data@, start as int),
        decreases data@.len() - cursor,
    {
        cursor += 1;
    }
    if start == cursor {
        return Err(invalid_frame("PPM header is incomplete"));
    }
    Ok((start, cursor))
}

fn number(data: &[u8], from: usize, name: &str) -> (r: Result<(usize, usize), CaptureError>)
    requires
        from <= data@.len(),
    ensures
        r is Ok <==> next_number(data@, from as int, name@) is Ok,
        r matches Ok((value, end)) ==> next_number(data@, from as int, name@) == Ok::<
            (nat, int),
            Seq<char>,
        >((value as nat, end as int)) && end <= data@.len(),
        r matches Err(error) ==> error.deep_view() == frame::CaptureErrorView::InvalidFrame(
            next_number(data@, from as int, name@)->Err_0,
        ),
{
    let (start, end) = match token(data, from) {
        Ok(bounds) => bounds,
        Err(error) => return Err(error),
    };
    let bytes: &[u8] = slice_subrange(data, start, end);
    if encoding::utf8_text(bytes).is_err() {
        return Err(invalid_frame(text::concat3("PPM ", name, " is not text").as_str()));
    }
    match text::parse_unsigned(bytes, usize::MAX as u64) {
        Ok(value) => Ok((value as usize, end)),
        Err(_) => Err(invalid_frame(text::concat3("PPM ", name, " is invalid").as_str())),
    }
}

fn raster(data: &[u8], from: usize) -> (r: Result<usize, CaptureError>)
    requires
        from <= data@.len(),
    ensures
        r is Ok <==> raster_start(data@, from as int) is Some,
        r matches Ok(start) ==> raster_start(data@, from as int) == Some(start as int) && start
            <= data@.len(),
        r matches Err(error) ==> error.deep_view() == frame::CaptureErrorView::InvalidFrame(
            "PPM raster separator is missing"@,
        ),
{
    if from < data.len() {
        if data[from] == 13 && data.len() - from > 1 && data[from + 1] == 10 {
            return Ok(from + 2);
        }
        if is_space_byte(data[from]) {
            return Ok(from + 1);
        }
    }
    Err(invalid_frame("PPM raster separator is missing"))
}

/// Reads a binary PPM image with 255 as its largest color value.
pub fn parse_ppm(data: &[u8]) -> (r: Result<OwnedFrame, CaptureError>)
    ensures
        r is Ok <==> ppm_image(data@) is Ok,
        r matches Ok(image) ==> {
            let (width, height, start) = ppm_image(data@)->Ok_0;
            image.deep_view() == ppm_frame(data@, width, height, start)
        },
        r matches Err(error) ==> error.deep_view() == frame::CaptureErrorView::InvalidFrame(
            ppm_image(data@)->Err_0,
        ),
{
    let (magic_start, magic_end) = match token(data, 0) {
        Ok(bounds) => bounds,
        Err(error) => return Err(error),
    };
    if magic_end - magic_start != 2 || data[magic_start] != 80 || data[magic_start + 1] != 54 {
        proof {
            let magic = data@.subrange(magic_start as int, magic_end as int);
            if magic == seq![80u8, 54u8] {
                assert(magic.len() == 2 && magic[0] == 80 && magic[1] == 54);
            }
        }
        return Err(invalid_frame("PPM magic must be P6"));
    }
    assert(data@.subrange(magic_start as int, magic_end as int) =~= seq![80u8, 54u8]);
    let (width, after_width) = match number(data, magic_end, "width") {
        Ok(read) => read,
        Err(error) => return Err(error),
    };
    let (height, after_height) = match number(data, after_width, "height") {
        Ok(read) => read,
        Err(error) => return Err(error),
    };
    let (maximum, header_end) = match number(data, after_height, "maximum color value") {
        Ok(read) => read,
        Err(error) => return Err(error),
    };
    if width == 0 || height == 0 || maximum != 255 {
        return Err(invalid_frame("PPM dimensions or maximum color value are invalid"));
    }
    let start: usize = match raster(data, header_end) {
        Ok(start) => start,
        Err(error) => return Err(error),
    };
    let stride: usize = match width.checked_mul(3) {
        Some(stride) => stride,
        None => return Err(invalid_frame("PPM row size overflows")),
    };
    let size: usize = match stride.checked_mul(height) {
        Some(size) => size,
        None => return Err(invalid_frame("PPM image size overflows")),
    };
    let end: usize = match start.checked_add(size) {
        Some(end) => end,
        None => return Err(invalid_frame("PPM image size overflows")),
    };
    if end > data.len() {
        return Err(invalid_frame("PPM image is truncated"));
    }
    let pixels: &[u8] = slice_subrange(data, start, end);
    if width as u64 > u32::MAX as u64 {
        return Err(invalid_frame("PPM width is too large"));
    }
    if height as u64 > u32::MAX as u64 {
        return Err(invalid_frame("PPM height is too large"));
    }
    if stride as u64 > i32::MAX as u64 {
        return Err(invalid_frame("PPM stride is too large"));
    }
    let format: FrameFormat = FrameFormat {
        width: width as u32,
        height: height as u32,
        stride: stride as i32,
        pixel_format: PixelFormat::Rgb,
    };
    proof {
        assert((height - 1) * stride + stride == stride * height) by (nonlinear_arith);
    }
    OwnedFrame::new(format, slice_to_vec(pixels))
}

/// The color of a pixel of an image is the three bytes at its place in reading
/// order.
pub proof fn law_ppm_pixels_are_in_reading_order(data: Seq<u8>, x: int, y: int)
    requires
        ppm_image(data) is Ok,
        0 <= x < ppm_image(data)->Ok_0.0,
        0 <= y < ppm_image(data)->Ok_0.1,
    ensures
        ({
            let (width, height, start) = ppm_image(data)->Ok_0;
            let image = ppm_frame(data, width, height, start);
            let at = start + 3 * (y * width + x);
            &&& frame::pixel_present(image.format, image.data.len(), x, y)
            &&& frame::color_at(
                image.format.pixel_format,
                image.data,
                frame::pixel_offset(image.format, x, y),
            ) == seq![data[at], data[at + 1], data[at + 2]]
        }),
{
    let (width, height, start) = ppm_image(data)->Ok_0;
    let image = ppm_frame(data, width, height, start);
    let w = width as int;
    let h = height as int;
    assert(3 * w * h == (h - 1) * (3 * w) + 3 * w) by (nonlinear_arith);
    assert(frame::frame_problem(image.format, image.data.len()) is None);
    frame::law_valid_frame_covers_every_pixel(image.format, image.data.len(), x, y);
    assert(y * (3 * w) + x * 3 == 3 * (y * w + x)) by (nonlinear_arith);
}

/// The header that is written for an image of these dimensions.
pub open spec fn header_text(width: nat, height: nat) -> Seq<char> {
    "P6\n"@ + text::decimal_text(width) + " "@ + text::decimal_text(height) + "\n255\n"@
}

proof fn lemma_token_end(data: Seq<u8>, i: int, end: int)
    requires
        0 <= i <= end < data.len(),
        forall|j: int| i <= j < end ==> !is_space(#[trigger] data[j]) && data[j] != 35,
        is_space(data[end]),
    ensures
        token_end(data, i) == end,
    decreases end - i,
{
    if i < end {
        lemma_token_end(data, i + 1, end);
    }
}

/// A number in decimal between white space is read.
proof fn lemma_written_number(data: Seq<u8>, i: int, value: nat, name: Seq<char>)
    requires
        0 <= i,
        value <= usize::MAX,
        ({
            let digits = text::decimal_text(value);
            &&& i + 1 + digits.len() < data.len()
            &&& is_space(data[i])
            &&& forall|j: int| 0 <= j < digits.len() ==> data[i + 1 + j] == #[trigger] digits[j] as u8
            &&& is_space(data[(i + 1 + digits.len()) as int])
        }),
    ensures
        next_number(data, i, name) == Ok::<(nat, int), Seq<char>>(
            (value, (i + 1 + text::decimal_text(value).len()) as int),
        ),
{
    let digits = text::decimal_text(value);
    let start = i + 1;
    let end = (start + digits.len()) as int;
    text::lemma_decimal_digits(value);
    assert forall|j: int| start <= j < end implies text::is_digit_byte(#[trigger] data[j]) by {
        assert(data[start + (j - start)] == digits[j - start] as u8);
    }
    assert(text::is_digit_byte(data[start]));
    assert(spaces_end(data, start) == start);
    assert(spaces_end(data, i) == start);
    assert(layout_end(data, i) == start);
    lemma_token_end(data, start, end);
    let token = data.subrange(start, end);
    assert(token =~= digits.map_values(|c: char| c as u8));
    assert forall|j: int| 0 <= j < token.len() implies text::is_digit_byte(#[trigger] token[j]) by {
        assert(token[j] == data[start + j]);
    }
    assert(text::without_plus(token) == token);
    vstd::utf8::is_ascii_chars_encode_utf8(digits);
    assert(token =~= vstd::utf8::encode_utf8(digits));
    vstd::utf8::encode_utf8_valid_utf8(digits);
}

/// An image that was written, header in decimal and pixels behind it, is read back:
/// its pixels are taken as they are, whatever their first bytes, and what follows
/// them is ignored.
pub proof fn law_written_image_is_read_back(
    width: nat,
    height: nat,
    pixels: Seq<u8>,
    trailing: Seq<u8>,
)
    requires
        width >= 1,
        3 * width <= i32::MAX,
        1 <= height <= u32::MAX,
        pixels.len() == 3 * width * height,
        vstd::utf8::encode_utf8(header_text(width, height)).len() + pixels.len() + trailing.len()
            <= usize::MAX,
    ensures
        ({
            let header = vstd::utf8::encode_utf8(header_text(width, height));
            let data = header + pixels + trailing;
            &&& ppm_image(data) == Ok::<(nat, nat, int), Seq<char>>(
                (width, height, header.len() as int),
            )
            &&& ppm_frame(data, width, height, header.len() as int) == (frame::OwnedFrameView {
                format: FrameFormat {
                    width: width as u32,
                    height: height as u32,
                    stride: (3 * width) as i32,
                    pixel_format: PixelFormat::Rgb,
                },
                data: pixels,
            })
        }),
{
    let across = text::decimal_text(width);
    let down = text::decimal_text(height);
    let shown = header_text(width, height);
    let header = vstd::utf8::encode_utf8(shown);
    let data = header + pixels + trailing;
    let a = 2int;
    let b = (3 + across.len()) as int;
    let c = (4 + across.len() + down.len()) as int;
    reveal_strlit("P6\n");
    reveal_strlit(" ");
    reveal_strlit("\n255\n");
    text::lemma_decimal_digits(width);
    text::lemma_decimal_digits(height);
    assert(shown.len() == c + 5);
    assert(shown[0] == 'P' && shown[1] == '6' && shown[a] == '\n' && shown[b] == ' ');
    assert(shown[c] == '\n' && shown[c + 1] == '2' && shown[c + 2] == '5' && shown[c + 3] == '5'
        && shown[c + 4] == '\n');
    assert forall|j: int| 0 <= j < across.len() implies shown[a + 1 + j] == #[trigger] across[j] by {}
    assert forall|j: int| 0 <= j < down.len() implies shown[b + 1 + j] == #[trigger] down[j] by {}
    assert(vstd::utf8::is_ascii_chars(shown)) by {
        assert forall|i: int| 0 <= i < shown.len() implies 0 <= #[trigger] shown[i] as nat
            <= 127 by {
            if a < i < b {
                assert(shown[a + 1 + (i - a - 1)] == across[i - a - 1]);
            } else if b < i < c {
                assert(shown[b + 1 + (i - b - 1)] == down[i - b - 1]);
            }
        }
    }
    vstd::utf8::is_ascii_chars_encode_utf8(shown);
    assert(header.len() == c + 5);
    assert forall|i: int| 0 <= i < header.len() implies data[i] == #[trigger] shown[i] as u8 by {
        assert(data[i] == header[i]);
    }
    assert(data[0] == shown[0] as u8 && data[1] == shown[1] as u8);
    assert(data[a] == shown[a] as u8 && data[b] == shown[b] as u8 && data[c] == shown[c] as u8);
    assert(data[c + 4] == shown[c + 4] as u8);
    assert(spaces_end(data, 0) == 0);
    assert(layout_end(data, 0) == 0);
    lemma_token_end(data, 0, 2);
    assert(data.subrange(0, 2) =~= seq![80u8, 54u8]);
    assert forall|j: int| 0 <= j < across.len() implies data[a + 1 + j] == #[trigger] across[j]
        as u8 by {
        assert(data[a + 1 + j] == shown[a + 1 + j] as u8);
    }
    lemma_written_number(data, a, width, "width"@);
    assert forall|j: int| 0 <= j < down.len() implies data[b + 1 + j] == #[trigger] down[j]
        as u8 by {
        assert(data[b + 1 + j] == shown[b + 1 + j] as u8);
    }
    lemma_written_number(data, b, height, "height"@);
    let largest = text::decimal_text(255);
    assert(largest =~= seq!['2', '5', '5']) by {
        reveal_with_fuel(text::decimal_text, 3);
    }
    assert forall|j: int| 0 <= j < largest.len() implies data[c + 1 + j] == #[trigger] largest[j]
        as u8 by {
        assert(data[c + 1 + j] == shown[c + 1 + j] as u8);
    }
    lemma_written_number(data, c, 255, "maximum color value"@);
    assert(raster_start(data, c + 4) == Some(c + 5));
    assert(data.subrange(c + 5, c + 5 + 3 * width * height) =~= pixels);
}

} // verus!
