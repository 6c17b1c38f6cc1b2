//! Frames out of PipeWire buffers, and how a PipeWire stream is followed.
use crate::capture::frame::{
    invalid_frame, row_bytes, CaptureError, CaptureErrorView, FrameFormat, OwnedFrame,
    OwnedFrameView, PixelFormat,
};
use crate::capture::frame;
use crate::text;
use vstd::prelude::*;
use vstd::slice::slice_subrange;

verus! {

/// The bytes from the start of one row to the start of the next; negative when
/// the rows are stored upwards.
pub open spec fn signed_stride(format: FrameFormat) -> int {
    if format.stride == 0 {
        frame::row_size(format) as int
    } else {
        format.stride as int
    }
}

/// The bytes that the rows span.
pub open spec fn required_size(format: FrameFormat) -> nat {
    let gaps = if format.height == 0 {
        0
    } else {
        (format.height - 1) as nat
    };
    gaps * frame::stride_size(format) + frame::row_size(format)
}

/// Where a row begins in the mapped bytes.
pub open spec fn row_start(offset: int, stride: int, row: int) -> int {
    offset + row * stride
}

/// Why a row cannot be copied, if it cannot.
pub open spec fn row_problem(
    len: nat,
    offset: int,
    row_len: nat,
    stride: int,
    row: int,
) -> Option<Seq<char>> {
    let start = row_start(offset, stride, row);
    if row > isize::MAX {
        Some("PipeWire row is too large"@)
    } else if row * stride > isize::MAX || row * stride < isize::MIN {
        Some("PipeWire row offset overflows"@)
    } else if start > isize::MAX || start < 0 {
        Some("PipeWire row starts outside the mapped buffer"@)
    } else if start + row_len > usize::MAX {
        Some("PipeWire row offset overflows"@)
    } else if start + row_len > len {
        Some("PipeWire row is outside the mapped buffer"@)
    } else {
        None
    }
}

/// What stops the copy of the first `n` rows, if anything does.
pub open spec fn rows_problem(
    len: nat,
    offset: int,
    row_len: nat,
    stride: int,
    n: nat,
) -> Option<Seq<char>>
    decreases n,
{
    if n == 0 {
        None
    } else {
        match rows_problem(len, offset, row_len, stride, (n - 1) as nat) {
            Some(problem) => Some(problem),
            None => row_problem(len, offset, row_len, stride, n - 1),
        }
    }
}

/// The first `n` rows of the mapped bytes, from the top, without padding.
pub open spec fn copied_rows(
    mapped: Seq<u8>,
    offset: int,
    row_len: nat,
    stride: int,
    n: nat,
) -> Seq<u8>
    decreases n,
{
    if n == 0 {
        Seq::empty()
    } else {
        let start = row_start(offset, stride, n - 1);
        copied_rows(mapped, offset, row_len, stride, (n - 1) as nat) + mapped.subrange(
            start,
            start + row_len,
        )
    }
}

/// The format of a copied frame: its rows follow each other without padding.
pub open spec fn copied_format(format: FrameFormat) -> FrameFormat {
    FrameFormat { stride: frame::row_size(format) as i32, ..format }
}

/// What stops the copy of a frame, if anything does.
pub open spec fn copy_problem(
    len: nat,
    offset: nat,
    chunk_size: nat,
    format: FrameFormat,
) -> Option<Seq<char>> {
    let row_len = frame::row_size(format);
    let rows = rows_problem(
        len,
        offset as int,
        row_len,
        signed_stride(format),
        format.height as nat,
    );
    if row_len > usize::MAX {
        Some("PipeWire row size overflows"@)
    } else if format.stride == 0 && row_len > isize::MAX {
        Some("PipeWire stride is too large"@)
    } else if frame::stride_size(format) < row_len {
        Some("PipeWire stride is shorter than a pixel row"@)
    } else if required_size(format) > usize::MAX {
        Some("PipeWire frame size overflows"@)
    } else if chunk_size < required_size(format) {
        Some("PipeWire chunk is truncated"@)
    } else if offset > isize::MAX {
        Some("PipeWire offset is too large"@)
    } else if rows is Some {
        rows
    } else if row_len > i32::MAX {
        Some("PipeWire row is too wide"@)
    } else {
        frame::frame_problem(copied_format(format), row_len * format.height as nat)
    }
}

proof fn lemma_rows_problem_sticks(
    len: nat,
    offset: int,
    row_len: nat,
    stride: int,
    n: nat,
    m: nat,
)
    requires
        n <= m,
        rows_problem(len, offset, row_len, stride, n) is Some,
    ensures
        rows_problem(len, offset, row_len, stride, m) == rows_problem(
            len,
            offset,
            row_len,
            stride,
            n,
        ),
    decreases m,
{
    if n < m {
        lemma_rows_problem_sticks(len, offset, row_len, stride, n, (m - 1) as nat);
    }
}

proof fn lemma_no_row_problem(len: nat, offset: int, row_len: nat, stride: int, n: nat, row: int)
    requires
        rows_problem(len, offset, row_len, stride, n) is None,
        0 <= row < n,
    ensures
        row_problem(len, offset, row_len, stride, row) is None,
    decreases n,
{
    if row < n - 1 {
        lemma_no_row_problem(len, offset, row_len, stride, (n - 1) as nat, row);
    }
}

proof fn lemma_copied_rows(
    mapped: Seq<u8>,
    offset: int,
    row_len: nat,
    stride: int,
    n: nat,
    row: int,
    k: int,
)
    requires
        rows_problem(mapped.len(), offset, row_len, stride, n) is None,
    ensures
        copied_rows(mapped, offset, row_len, stride, n).len() == n * row_len,
        0 <= row < n && 0 <= k < row_len ==> {
            &&& 0 <= row * row_len + k < n * row_len
            &&& copied_rows(mapped, offset, row_len, stride, n)[row * row_len + k]
                == mapped[row_start(offset, stride, row) + k]
        },
    decreases n,
{
    if n > 0 {
        let m = (n - 1) as nat;
        lemma_copied_rows(mapped, offset, row_len, stride, m, row, k);
        assert(n * row_len == m * row_len + row_len) by (nonlinear_arith)
            requires
                n == m + 1,
        ;
        if 0 <= row < n && 0 <= k < row_len {
            assert(0 <= row * row_len) by (nonlinear_arith)
                requires
                    0 <= row,
                    0 <= row_len,
            ;
            if row < m {
                assert(row * row_len + row_len <= m * row_len) by (nonlinear_arith)
                    requires
                        row + 1 <= m,
                        0 <= row_len,
                ;
            } else {
                assert(row == m);
            }
        }
    } else {
        assert(n * row_len == 0) by (nonlinear_arith)
            requires
                n == 0,
        ;
    }
}

/// Copies a frame out of mapped bytes, from its top row down, without padding.
/// Rows of a negative stride are stored upwards from the offset.
pub fn copy_pipewire_frame(
    mapped: &[u8],
    offset: usize,
    chunk_size: usize,
    format: FrameFormat,
) -> (r: Result<OwnedFrame, CaptureError>)
    ensures
        r is Ok <==> copy_problem(mapped@.len(), offset as nat, chunk_size as nat, format) is None,
        r matches Ok(copy) ==> copy.deep_view() == (OwnedFrameView {
            format: copied_format(format),
            data: copied_rows(
                mapped@,
                offset as int,
                frame::row_size(format),
                signed_stride(format),
                format.height as nat,
            ),
        }),
        r matches Err(error) ==> error.deep_view() == CaptureErrorView::InvalidFrame(
            copy_problem(mapped@.len(), offset as nat, chunk_size as nat, format)->Some_0,
        ),
{
    let row_len: usize = match row_bytes(format) {
        Some(bytes) => bytes,
        None => return Err(invalid_frame("PipeWire row size overflows")),
    };
    let height: usize = format.height as usize;
    let stride: i64 = if format.stride == 0 {
        if row_len as u64 > isize::MAX as u64 {
            return Err(invalid_frame("PipeWire stride is too large"));
        }
        row_len as i64
    } else {
        format.stride as i64
    };
    let magnitude: u64 = if stride < 0 {
        (-stride) as u64
    } else {
        stride as u64
    };
    if magnitude < row_len as u64 {
        return Err(invalid_frame("PipeWire stride is shorter than a pixel row"));
    }
    let gaps: usize = if height == 0 {
        0
    } else {
        height - 1
    };
    let step: usize = magnitude as usize;
    let required: usize = match gaps.checked_mul(step) {
        Some(prefix) => match prefix.checked_add(row_len) {
            Some(required) => required,
            None => return Err(invalid_frame("PipeWire frame size overflows")),
        },
        None => return Err(invalid_frame("PipeWire frame size overflows")),
    };
    if chunk_size < required {
        return Err(invalid_frame("PipeWire chunk is truncated"));
    }
    if offset as u64 > isize::MAX as u64 {
        return Err(invalid_frame("PipeWire offset is too large"));
    }
    let ghost problem = copy_problem(mapped@.len(), offset as nat, chunk_size as nat, format);
    let ghost signed = stride as int;
    let mut output: Vec<u8> = Vec::new();
    let mut row: usize = 0;
    while row < height
        invariant
            row <= height,
            height == format.height,
            offset <= isize::MAX,
            row_len == frame::row_size(format),
            signed == stride,
            signed == signed_stride(format),
            problem == copy_problem(mapped@.len(), offset as nat, chunk_size as nat, format),
            rows_problem(
                mapped@.len(),
                offset as int,
                row_len as nat,
                signed,
                height as nat,
            ) is Some ==> problem == rows_problem(
                mapped@.len(),
                offset as int,
                row_len as nat,
                signed,
                height as nat,
            ),
            rows_problem(mapped@.len(), offset as int, row_len as nat, signed, row as nat) is None,
            output@ == copied_rows(mapped@, offset as int, row_len as nat, signed, row as nat),
        decreases height - row,
    {
        let ghost found = row_problem(
            mapped@.len(),
            offset as int,
            row_len as nat,
            signed,
            row as int,
        );
        proof {
            if found is Some {
                lemma_rows_problem_sticks(
                    mapped@.len(),
                    offset as int,
                    row_len as nat,
                    signed,
                    (row + 1) as nat,
                    height as nat,
                );
            }
            assert(-0x8000_0000_0000_0000_0000_0000 <= row * stride
                <= 0x8000_0000_0000_0000_0000_0000) by (nonlinear_arith)
                requires
                    0 <= row <= 0xffff_ffff,
                    -0x8000_0000_0000_0000 <= stride <= 0x7fff_ffff_ffff_ffff,
            ;
        }
        if row as u64 > isize::MAX as u64 {
            return Err(invalid_frame("PipeWire row is too large"));
        }
        let distance: i128 = (row as i128) * (stride as i128);
        if distance > isize::MAX as i128 || distance < isize::MIN as i128 {
            return Err(invalid_frame("PipeWire row offset overflows"));
        }
        let begin: i128 = offset as i128 + distance;
        if begin > isize::MAX as i128 || begin < 0 {
            return Err(invalid_frame("PipeWire row starts outside the mapped buffer"));
        }
        let start: usize = begin as usize;
        let end: usize = match start.checked_add(row_len) {
            Some(end) => end,
            None => return Err(invalid_frame("PipeWire row offset overflows")),
        };
        if end > mapped.len() {
            return Err(invalid_frame("PipeWire row is outside the mapped buffer"));
        }
        let ghost before = output@;
        output.extend_from_slice(slice_subrange(mapped, start, end));
        assert(output@ =~= before + mapped@.subrange(start as int, end as int));
        row += 1;
    }
    proof {
        lemma_copied_rows(
            mapped@,
            offset as int,
            row_len as nat,
            signed,
            height as nat,
            0,
            0,
        );
        assert(height * row_len == row_len * height) by (nonlinear_arith);
    }
    if row_len as u64 > i32::MAX as u64 {
        return Err(invalid_frame("PipeWire row is too wide"));
    }
    OwnedFrame::new(
        FrameFormat {
            width: format.width,
            height: format.height,
            stride: row_len as i32,
            pixel_format: format.pixel_format,
        },
        output,
    )
}

/// A pixel of a copied frame has the color that the mapped bytes hold for it:
/// `y` strides and `x` pixels from the offset.
pub proof fn law_copy_keeps_every_pixel(
    mapped: Seq<u8>,
    offset: nat,
    chunk_size: nat,
    format: FrameFormat,
    x: int,
    y: int,
)
    requires
        copy_problem(mapped.len(), offset, chunk_size, format) is None,
        0 <= x < format.width,
        0 <= y < format.height,
    ensures
        ({
            let copy = copied_rows(
                mapped,
                offset as int,
                frame::row_size(format),
                signed_stride(format),
                format.height as nat,
            );
            &&& frame::pixel_present(copied_format(format), copy.len(), x, y)
            &&& frame::color_at(
                format.pixel_format,
                copy,
                frame::pixel_offset(copied_format(format), x, y),
            ) == frame::color_at(
                format.pixel_format,
                mapped,
                offset + y * signed_stride(format) + x * frame::pixel_size(format.pixel_format),
            )
        }),
{
    let row_len = frame::row_size(format);
    let stride = signed_stride(format);
    let size = frame::pixel_size(format.pixel_format) as int;
    let height = format.height as nat;
    let column = x * size;
    let copy = copied_rows(mapped, offset as int, row_len, stride, height);
    lemma_copied_rows(mapped, offset as int, row_len, stride, height, y, column);
    lemma_copied_rows(mapped, offset as int, row_len, stride, height, y, column + 1);
    lemma_copied_rows(mapped, offset as int, row_len, stride, height, y, column + 2);
    assert(height * row_len == row_len * height) by (nonlinear_arith);
    frame::law_valid_frame_covers_every_pixel(copied_format(format), copy.len(), x, y);
    assert(0 <= column && column + size <= format.width * size) by (nonlinear_arith)
        requires
            0 <= x,
            x + 1 <= format.width,
            0 <= size,
            column == x * size,
    ;
    assert(frame::stride_size(copied_format(format)) == row_len);
    assert(frame::pixel_offset(copied_format(format), x, y) == y * row_len + column);
}

/// What a PipeWire stream reports of itself.
#[derive(Debug, PartialEq, Eq)]
pub enum StreamCondition {
    Streaming,
    Error(String),
    Unconnected,
    Other,
}

/// The mathematical value of [`StreamCondition`].
#[verifier::ext_equal]
pub enum StreamConditionView {
    Streaming,
    Error(Seq<char>),
    Unconnected,
    Other,
}

impl DeepView for StreamCondition {
    type V = StreamConditionView;

    open spec fn deep_view(&self) -> StreamConditionView {
        match self {
            StreamCondition::Streaming => StreamConditionView::Streaming,
            StreamCondition::Error(value) => StreamConditionView::Error(value.deep_view()),
            StreamCondition::Unconnected => StreamConditionView::Unconnected,
            StreamCondition::Other => StreamConditionView::Other,
        }
    }
}

impl Clone for StreamCondition {
    fn clone(&self) -> (r: Self)
        ensures
            r.deep_view() == self.deep_view(),
    {
        match self {
            StreamCondition::Streaming => StreamCondition::Streaming,
            StreamCondition::Error(value) => StreamCondition::Error(value.clone()),
            StreamCondition::Unconnected => StreamCondition::Unconnected,
            StreamCondition::Other => StreamCondition::Other,
        }
    }
}

/// What a PipeWire stream reports of its parameters.
#[derive(Debug, PartialEq, Eq)]
pub enum FormatChange {
    /// A parameter other than the format.
    Other,
    /// The format was taken away.
    Missing,
    /// A format that could be read.
    Accepted,
    /// A format that could not be read, and why.
    Unreadable(String),
}

/// The mathematical value of [`FormatChange`].
#[verifier::ext_equal]
pub enum FormatChangeView {
    Other,
    Missing,
    Accepted,
    Unreadable(Seq<char>),
}

impl DeepView for FormatChange {
    type V = FormatChangeView;

    open spec fn deep_view(&self) -> FormatChangeView {
        match self {
            FormatChange::Other => FormatChangeView::Other,
            FormatChange::Missing => FormatChangeView::Missing,
            FormatChange::Accepted => FormatChangeView::Accepted,
            FormatChange::Unreadable(value) => FormatChangeView::Unreadable(value.deep_view()),
        }
    }
}

impl Clone for FormatChange {
    fn clone(&self) -> (r: Self)
        ensures
            r.deep_view() == self.deep_view(),
    {
        match self {
            FormatChange::Other => FormatChange::Other,
            FormatChange::Missing => FormatChange::Missing,
            FormatChange::Accepted => FormatChange::Accepted,
            FormatChange::Unreadable(value) => FormatChange::Unreadable(value.clone()),
        }
    }
}

/// What is done about a report of a PipeWire stream.
#[derive(Debug, PartialEq, Eq)]
pub enum StreamReaction {
    Nothing,
    /// Publish that frames are coming.
    Streaming,
    /// Publish a frame.
    Frame(OwnedFrame),
    /// Publish an error as the state and in place of a frame, and leave the main loop.
    Fail(CaptureError),
}

/// The mathematical value of [`StreamReaction`].
#[verifier::ext_equal]
pub enum StreamReactionView {
    Nothing,
    Streaming,
    Frame(OwnedFrameView),
    Fail(CaptureErrorView),
}

impl DeepView for StreamReaction {
    type V = StreamReactionView;

    open spec fn deep_view(&self) -> StreamReactionView {
        match self {
            StreamReaction::Nothing => StreamReactionView::Nothing,
            StreamReaction::Streaming => StreamReactionView::Streaming,
            StreamReaction::Frame(value) => StreamReactionView::Frame(value.deep_view()),
            StreamReaction::Fail(value) => StreamReactionView::Fail(value.deep_view()),
        }
    }
}

impl Clone for StreamReaction {
    fn clone(&self) -> (r: Self)
        ensures
            r.deep_view() == self.deep_view(),
    {
        match self {
            StreamReaction::Nothing => StreamReaction::Nothing,
            StreamReaction::Streaming => StreamReaction::Streaming,
            StreamReaction::Frame(value) => StreamReaction::Frame(value.clone()),
            StreamReaction::Fail(value) => StreamReaction::Fail(value.clone()),
        }
    }
}

/// The video formats that matter here.
#[derive(Clone, Copy, Debug, PartialEq, Eq, Structural)]
pub enum VideoFormat {
    BGRx,
    BGRA,
    RGBx,
    RGBA,
    Other,
}

/// The pixel layout of a video format that can be used.
pub open spec fn video_pixels(format: VideoFormat) -> Option<PixelFormat> {
    match format {
        VideoFormat::BGRx => Some(PixelFormat::Bgrx),
        VideoFormat::BGRA => Some(PixelFormat::Bgra),
        VideoFormat::RGBx => Some(PixelFormat::Rgbx),
        VideoFormat::RGBA => Some(PixelFormat::Rgba),
        VideoFormat::Other => None,
    }
}

/// The pixel layout of a video format that can be used.
pub fn pixel_format(format: VideoFormat) -> (r: Option<PixelFormat>)
    ensures
        r == video_pixels(format),
{
    match format {
        VideoFormat::BGRx => Some(PixelFormat::Bgrx),
        VideoFormat::BGRA => Some(PixelFormat::Bgra),
        VideoFormat::RGBx => Some(PixelFormat::Rgbx),
        VideoFormat::RGBA => Some(PixelFormat::Rgba),
        VideoFormat::Other => None,
    }
}

/// The first data plane of a buffer.
#[derive(Clone, Copy, Debug)]
pub struct Plane<'a> {
    pub offset: u32,
    pub size: u32,
    pub stride: i32,
    /// The mapped bytes, if the plane is mapped.
    pub mapped: Option<&'a [u8]>,
}

/// A buffer that a stream offers.
#[derive(Clone, Copy, Debug)]
pub enum Buffer<'a> {
    /// None is there.
    Absent,
    /// It has no data plane.
    Empty,
    Filled(Plane<'a>),
}

/// What is done about a change of a stream's condition.
pub open spec fn condition_reaction(condition: StreamConditionView) -> StreamReactionView {
    match condition {
        StreamConditionView::Streaming => StreamReactionView::Streaming,
        StreamConditionView::Error(message) => StreamReactionView::Fail(
            CaptureErrorView::Backend("PipeWire stream failed: "@ + message),
        ),
        StreamConditionView::Unconnected => StreamReactionView::Fail(
            CaptureErrorView::Backend("PipeWire stream disconnected"@),
        ),
        StreamConditionView::Other => StreamReactionView::Nothing,
    }
}

/// Follows a change of a stream's condition.
pub fn on_condition(condition: &StreamCondition) -> (r: StreamReaction)
    ensures
        r.deep_view() == condition_reaction(condition.deep_view()),
{
    match condition {
        StreamCondition::Streaming => StreamReaction::Streaming,
        StreamCondition::Error(message) => StreamReaction::Fail(
            CaptureError::Backend(text::concat("PipeWire stream failed: ", message.as_str())),
        ),
        StreamCondition::Unconnected => StreamReaction::Fail(
            CaptureError::Backend("PipeWire stream disconnected".to_owned()),
        ),
        StreamCondition::Other => StreamReaction::Nothing,
    }
}

/// What is done about a change of a stream's parameters.
pub open spec fn format_reaction(change: FormatChangeView) -> StreamReactionView {
    match change {
        FormatChangeView::Missing => StreamReactionView::Fail(
            CaptureErrorView::InvalidFrame("PipeWire provided an empty video format"@),
        ),
        FormatChangeView::Unreadable(reason) => StreamReactionView::Fail(
            CaptureErrorView::Backend("unsupported PipeWire video format: "@ + reason),
        ),
        _ => StreamReactionView::Nothing,
    }
}

/// Follows a change of a stream's parameters.
pub fn on_format(change: &FormatChange) -> (r: StreamReaction)
    ensures
        r.deep_view() == format_reaction(change.deep_view()),
{
    match change {
        FormatChange::Missing => StreamReaction::Fail(
            invalid_frame("PipeWire provided an empty video format"),
        ),
        FormatChange::Unreadable(reason) => StreamReaction::Fail(
            CaptureError::Backend(
                text::concat("unsupported PipeWire video format: ", reason.as_str()),
            ),
        ),
        FormatChange::Other | FormatChange::Accepted => StreamReaction::Nothing,
    }
}

/// The reaction to a buffer that cannot be used.
pub open spec fn unusable(message: Seq<char>) -> StreamReactionView {
    StreamReactionView::Fail(CaptureErrorView::InvalidFrame(message))
}

/// What is done about a buffer, given the negotiated video format and size.
pub open spec fn buffer_reaction(
    buffer: Buffer<'_>,
    format: VideoFormat,
    width: u32,
    height: u32,
) -> StreamReactionView {
    match buffer {
        Buffer::Absent => StreamReactionView::Nothing,
        Buffer::Empty => unusable("PipeWire buffer has no data plane"@),
        Buffer::Filled(plane) => match (plane.mapped, video_pixels(format)) {
            (None, _) => unusable("PipeWire buffer is not mapped"@),
            (_, None) => unusable("PipeWire selected an unsupported pixel format"@),
            (Some(mapped), Some(pixel_format)) => {
                let format = FrameFormat { width, height, stride: plane.stride, pixel_format };
                match copy_problem(
                    mapped@.len(),
                    plane.offset as nat,
                    plane.size as nat,
                    format,
                ) {
                    Some(problem) => unusable(problem),
                    None => StreamReactionView::Frame(
                        OwnedFrameView {
                            format: copied_format(format),
                            data: copied_rows(
                                mapped@,
                                plane.offset as int,
                                frame::row_size(format),
                                signed_stride(format),
                                height as nat,
                            ),
                        },
                    ),
                }
            },
        },
    }
}

/// Takes the frame out of a buffer.
pub fn on_buffer(buffer: Buffer<'_>, format: VideoFormat, width: u32, height: u32) -> (r:
    StreamReaction)
    ensures
        r.deep_view() == buffer_reaction(buffer, format, width, height),
{
    match buffer {
        Buffer::Absent => StreamReaction::Nothing,
        Buffer::Empty => StreamReaction::Fail(invalid_frame("PipeWire buffer has no data plane")),
        Buffer::Filled(plane) => match plane.mapped {
            None => StreamReaction::Fail(invalid_frame("PipeWire buffer is not mapped")),
            Some(mapped) => match pixel_format(format) {
                None => StreamReaction::Fail(
                    invalid_frame("PipeWire selected an unsupported pixel format"),
                ),
                Some(pixel_format) => match copy_pipewire_frame(
                    mapped,
                    plane.offset as usize,
                    plane.size as usize,
                    FrameFormat { width, height, stride: plane.stride, pixel_format },
                ) {
                    Ok(copy) => StreamReaction::Frame(copy),
                    Err(error) => StreamReaction::Fail(error),
                },
            },
        },
    }
}

} // verus!
