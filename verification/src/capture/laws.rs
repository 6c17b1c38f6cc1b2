//! What a capture comes to, in terms of the bytes that were captured and of what the
//! portal and the stream reported.
use crate::capture::frame::{CaptureErrorView, CaptureStateView, FrameFormat, PixelFormat};
use crate::capture::frame;
use crate::capture::grim;
use crate::capture::pipewire::{FormatChangeView, StreamConditionView, VideoFormat};
use crate::capture::pipewire;
use crate::capture::portal::{
    LastEventView, MonitorStreamView, PortalEventView, PortalPhaseView, SelectedSourceView,
    StartAnswerView,
};
use crate::capture::portal;
use crate::capture::ppm;
use crate::text;
use vstd::prelude::*;

verus! {

/// The red, green and blue of a pixel are the bytes at its row and column, in the order
/// of the format; with a negative stride the bottom row is stored first.
pub proof fn law_pixel_is_read_at_its_row_and_column(
    format: FrameFormat,
    data: Seq<u8>,
    x: int,
    y: int,
)
    ensures
        ({
            let size: int = if format.pixel_format == PixelFormat::Rgb {
                3
            } else {
                4
            };
            let stride: int = if format.stride == 0 {
                format.width * size
            } else if format.stride < 0 {
                -format.stride
            } else {
                format.stride as int
            };
            let row = if format.stride < 0 {
                format.height - 1 - y
            } else {
                y
            };
            let at = row * stride + x * size;
            let color = frame::color_at(
                format.pixel_format,
                data,
                frame::pixel_offset(format, x, y),
            );
            let reversed = format.pixel_format == PixelFormat::Bgrx || format.pixel_format
                == PixelFormat::Bgra;
            &&& color.len() == 3
            &&& color[1] == data[at + 1]
            &&& reversed ==> color[0] == data[at + 2] && color[2] == data[at]
            &&& !reversed ==> color[0] == data[at] && color[2] == data[at + 2]
        }),
{
}

/// A frame is accepted exactly where it has pixels, each row holds its pixels, and the
/// data reach to the end of its last row.
pub proof fn law_frame_is_accepted_iff_its_rows_fit(format: FrameFormat, len: nat)
    requires
        len <= usize::MAX,
    ensures
        ({
            let size: int = if format.pixel_format == PixelFormat::Rgb {
                3
            } else {
                4
            };
            let row = format.width * size;
            let stride: int = if format.stride == 0 {
                row
            } else if format.stride < 0 {
                -format.stride
            } else {
                format.stride as int
            };
            frame::frame_problem(format, len) is None <==> {
                &&& format.width > 0
                &&& format.height > 0
                &&& stride >= row
                &&& (format.height - 1) * stride + row <= len
            }
        }),
{
    let row = frame::row_size(format) as int;
    let stride = frame::stride_size(format) as int;
    assert(format.height > 0 ==> (format.height - 1) * stride >= 0) by (nonlinear_arith)
        requires
            stride >= 0,
    ;
}

/// A pixel has a color exactly where it is within the frame and its three bytes are
/// among the data.
pub proof fn law_pixel_has_a_color_iff_it_is_inside(
    format: FrameFormat,
    len: nat,
    x: int,
    y: int,
)
    requires
        frame::frame_problem(format, len) is None,
    ensures
        frame::pixel_present(format, len, x, y) <==> 0 <= x < format.width && 0 <= y
            < format.height,
{
    if 0 <= x < format.width && 0 <= y < format.height {
        frame::law_valid_frame_covers_every_pixel(format, len, x, y);
    }
}

/// A capture that was cancelled or not permitted is told as such; every other error is a
/// failure that is told in its own words.
pub proof fn law_errors_are_told(error: CaptureErrorView)
    ensures
        frame::error_state(error) is Cancelled <==> error is UserCancelled,
        frame::error_state(error) is ConsentRequired <==> error is ConsentRequired,
        !(error is UserCancelled) && !(error is ConsentRequired) ==> frame::error_state(error)
            == CaptureStateView::Failed(frame::capture_error_text(error)),
        error is InvalidFrame ==> frame::capture_error_text(error) == error->InvalidFrame_0,
        error is Backend ==> frame::capture_error_text(error) == error->Backend_0,
{
}

/// A screenshot is asked for as an image on the standard output, of the named output
/// where one is named.
pub proof fn law_screenshot_is_of_the_named_output(output: Option<Seq<char>>)
    ensures
        ({
            let arguments = grim::grim_arguments(output);
            &&& arguments[0] == "-t"@ && arguments[1] == "ppm"@
            &&& arguments.last() == "-"@
            &&& output is None ==> arguments.len() == 3
            &&& output is Some ==> arguments.len() == 5 && arguments[2] == "-o"@ && arguments[3]
                == output->Some_0
        }),
{
}

/// A buffer is copied exactly where its rows, each a stride behind the one before, lie
/// within what is mapped, a row fits in its stride, and the chunk is as long as they
/// take. A row of the copy is then such a row, and the copy is packed.
pub proof fn law_buffer_is_copied_iff_its_rows_are_mapped(
    mapped: Seq<u8>,
    offset: nat,
    chunk_size: nat,
    format: FrameFormat,
    row: int,
    stride: int,
)
    requires
        mapped.len() <= isize::MAX,
        chunk_size <= usize::MAX,
        format.height <= isize::MAX,
        format.pixel_format == PixelFormat::Rgb ==> row == 3 * format.width,
        format.pixel_format != PixelFormat::Rgb ==> row == 4 * format.width,
        format.stride == 0 ==> stride == row,
        format.stride != 0 ==> stride == format.stride,
    ensures
        pipewire::copy_problem(mapped.len(), offset, chunk_size, format) is None <==> {
            &&& format.width > 0
            &&& format.height > 0
            &&& row <= i32::MAX
            &&& stride >= row || -stride >= row
            &&& stride >= 0 ==> (format.height - 1) * stride + row <= chunk_size
            &&& stride < 0 ==> (format.height - 1) * -stride + row <= chunk_size
            &&& offset <= isize::MAX
            &&& forall|y: int|
                0 <= y < format.height ==> isize::MIN <= #[trigger] (y * stride) <= isize::MAX && 0
                    <= offset + y * stride && offset + y * stride + row <= mapped.len()
        },
{
    assert(frame::row_size(format) == row);
    assert(pipewire::signed_stride(format) == stride);
    let row_len = frame::row_size(format);
    let height = format.height as nat;
    lemma_rows_are_mapped(mapped.len(), offset as int, row_len, stride, height);
    let apart = frame::stride_size(format) as int;
    assert(height > 0 ==> (height - 1) * apart >= 0) by (nonlinear_arith)
        requires
            apart >= 0,
    ;
    if format.height > 0 && format.width > 0 && row_len <= i32::MAX {
        let copied = pipewire::copied_format(format);
        assert(frame::row_size(copied) == row_len);
        assert(frame::stride_size(copied) == row_len);
        assert((height - 1) * row_len + row_len == row_len * height) by (nonlinear_arith);
        if apart >= row_len {
            assert((height - 1) * row_len <= (height - 1) * apart) by (nonlinear_arith)
                requires
                    row_len <= apart,
                    1 <= height,
            ;
        }
    }
}

proof fn lemma_rows_are_mapped(len: nat, offset: int, row_len: nat, stride: int, n: nat)
    requires
        len <= isize::MAX,
        n <= isize::MAX,
    ensures
        pipewire::rows_problem(len, offset, row_len, stride, n) is None <==> forall|y: int|
            0 <= y < n ==> isize::MIN <= #[trigger] (y * stride) <= isize::MAX && 0 <= offset + y
                * stride && offset + y * stride + row_len <= len,
    decreases n,
{
    if n > 0 {
        let fewer = (n - 1) as nat;
        lemma_rows_are_mapped(len, offset, row_len, stride, fewer);
        let last = fewer as int;
        assert(pipewire::row_problem(len, offset, row_len, stride, last) is None <==> isize::MIN
            <= last * stride <= isize::MAX && 0 <= offset + last * stride && offset + last
            * stride + row_len <= len);
    }
}

/// A byte of a copied row is the byte at its place in that row of the buffer.
pub proof fn law_copied_rows_are_the_rows_of_the_buffer(
    mapped: Seq<u8>,
    offset: int,
    row_len: nat,
    stride: int,
    n: nat,
    y: int,
    i: int,
)
    requires
        forall|k: int|
            0 <= k < n ==> 0 <= offset + #[trigger] (k * stride) && offset + k * stride + row_len
                <= mapped.len(),
        0 <= y < n,
        0 <= i < row_len,
    ensures
        pipewire::copied_rows(mapped, offset, row_len, stride, n).len() == n * row_len,
        pipewire::copied_rows(mapped, offset, row_len, stride, n)[y * row_len + i] == mapped[offset
            + y * stride + i],
    decreases n,
{
    lemma_copied_length(mapped, offset, row_len, stride, n);
    let fewer = (n - 1) as nat;
    lemma_copied_length(mapped, offset, row_len, stride, fewer);
    let before = pipewire::copied_rows(mapped, offset, row_len, stride, fewer);
    let start = offset + fewer * stride;
    assert(0 <= offset + fewer * stride);
    if y < fewer {
        law_copied_rows_are_the_rows_of_the_buffer(mapped, offset, row_len, stride, fewer, y, i);
        assert(y * row_len + i < fewer * row_len) by (nonlinear_arith)
            requires
                y + 1 <= fewer,
                i < row_len,
                0 <= row_len,
        ;
        assert(0 <= y * row_len + i) by (nonlinear_arith)
            requires
                0 <= y,
                0 <= i,
                0 <= row_len,
        ;
    } else {
        assert(mapped.subrange(start, start + row_len)[i] == mapped[start + i]);
    }
}

proof fn lemma_copied_length(
    mapped: Seq<u8>,
    offset: int,
    row_len: nat,
    stride: int,
    n: nat,
)
    requires
        forall|k: int|
            0 <= k < n ==> 0 <= offset + #[trigger] (k * stride) && offset + k * stride + row_len
                <= mapped.len(),
    ensures
        pipewire::copied_rows(mapped, offset, row_len, stride, n).len() == n * row_len,
    decreases n,
{
    if n > 0 {
        let fewer = (n - 1) as nat;
        lemma_copied_length(mapped, offset, row_len, stride, fewer);
        assert(0 <= offset + fewer * stride);
        assert(fewer * row_len + row_len == n * row_len) by (nonlinear_arith)
            requires
                fewer + 1 == n,
        ;
    }
}

/// A copy has the dimensions and the pixels of the buffer, and its rows are packed.
pub proof fn law_copy_is_packed(format: FrameFormat)
    ensures
        ({
            let copied = pipewire::copied_format(format);
            let row = format.width * if format.pixel_format == PixelFormat::Rgb {
                3int
            } else {
                4int
            };
            &&& copied.width == format.width
            &&& copied.height == format.height
            &&& copied.pixel_format == format.pixel_format
            &&& row <= i32::MAX ==> copied.stride == row
        }),
{
}

/// Each video format with four bytes for a pixel is read as the format of its name, and
/// no other is read.
pub proof fn law_video_formats_are_read_by_name(format: VideoFormat)
    ensures
        pipewire::video_pixels(format) == Some(PixelFormat::Bgrx) <==> format == VideoFormat::BGRx,
        pipewire::video_pixels(format) == Some(PixelFormat::Bgra) <==> format == VideoFormat::BGRA,
        pipewire::video_pixels(format) == Some(PixelFormat::Rgbx) <==> format == VideoFormat::RGBx,
        pipewire::video_pixels(format) == Some(PixelFormat::Rgba) <==> format == VideoFormat::RGBA,
        pipewire::video_pixels(format) is None <==> format == VideoFormat::Other,
{
}

/// A stream fails where it reports an error or is disconnected, runs where it says so,
/// and a change of format fails exactly where the format is missing or cannot be read.
pub proof fn law_stream_reports_are_followed(
    condition: StreamConditionView,
    change: FormatChangeView,
)
    ensures
        ({
            let reaction = pipewire::condition_reaction(condition);
            let changed = pipewire::format_reaction(change);
            &&& reaction is Streaming <==> condition is Streaming
            &&& reaction is Fail <==> condition is Error || condition is Unconnected
            &&& reaction is Nothing <==> condition is Other
            &&& reaction is Fail ==> reaction->Fail_0 is Backend
            &&& changed is Fail <==> change is Missing || change is Unreadable
            &&& !(changed is Fail) ==> changed is Nothing
            &&& change is Missing ==> changed->Fail_0 is InvalidFrame
            &&& change is Unreadable ==> changed->Fail_0 is Backend
        }),
{
}

/// A buffer gives a frame exactly where it is mapped, in a format that is read, and can
/// be copied; an absent one gives nothing, and every other fails as an unusable frame.
pub proof fn law_buffers_give_frames_or_fail(
    buffer: pipewire::Buffer<'_>,
    format: VideoFormat,
    width: u32,
    height: u32,
)
    ensures
        ({
            let reaction = pipewire::buffer_reaction(buffer, format, width, height);
            &&& reaction is Nothing <==> buffer is Absent
            &&& !(reaction is Streaming)
            &&& reaction is Fail ==> reaction->Fail_0 is InvalidFrame
            &&& reaction is Frame ==> {
                let image = reaction->Frame_0.format;
                &&& buffer is Filled && buffer->Filled_0.mapped is Some
                &&& image.width == width && image.height == height
                &&& Some(image.pixel_format) == pipewire::video_pixels(format)
            }
        }),
{
}

/// A session that is asked for is granted with the first monitor, whose node is opened;
/// its token is kept where tokens are. Without a monitor, or where it is refused, the
/// session ends, is closed, and its caller learns why.
pub proof fn law_consent_decides_a_session(
    streams: Seq<MonitorStreamView>,
    token: Option<Seq<char>>,
    error: CaptureErrorView,
    keeps: bool,
)
    ensures
        ({
            let granted = portal::portal_step(
                PortalPhaseView::Requesting,
                PortalEventView::ConsentGranted { streams, restore_token: token },
                keeps,
            );
            let refused = portal::portal_step(
                PortalPhaseView::Requesting,
                PortalEventView::ConsentFailed(error),
                keeps,
            );
            &&& streams.len() > 0 ==> {
                &&& granted.phase == PortalPhaseView::Granted {
                    source: streams[0].source,
                    restore_token: token,
                }
                &&& granted.open_node == Some(streams[0].node_id)
                &&& granted.save_token <==> keeps && token is Some
                &&& granted.answer is None && granted.state is None && granted.last is None
                &&& !granted.close_session && !granted.stop_worker
            }
            &&& streams.len() == 0 ==> {
                &&& granted.phase is Ended && granted.close_session
                &&& granted.open_node is None && !granted.save_token
                &&& granted.answer is Some && granted.answer->Some_0 is Failed
                &&& granted.answer->Some_0->Failed_0 is Backend
            }
            &&& refused.phase is Ended && refused.close_session
            &&& refused.open_node is None && !refused.save_token
            &&& refused.answer == Some(StartAnswerView::Failed(error))
            &&& refused.last == Some(LastEventView::Error(error))
            &&& refused.state == Some(frame::error_state(error))
        }),
{
}

/// A granted session connects and then streams; its caller learns of the source and the
/// token that were granted.
pub proof fn law_granted_session_comes_to_stream(
    source: SelectedSourceView,
    token: Option<Seq<char>>,
    keeps: bool,
)
    ensures
        ({
            let opened = portal::portal_step(
                PortalPhaseView::Granted { source, restore_token: token },
                PortalEventView::RemoteOpened,
                keeps,
            );
            let started = portal::portal_step(opened.phase, PortalEventView::WorkerStarted, keeps);
            &&& opened.phase is Connecting
            &&& opened.state == Some(CaptureStateView::Connecting)
            &&& opened.answer is None && opened.last is None && !opened.close_session
            &&& started.phase is Streaming
            &&& started.answer == Some(StartAnswerView::Ready { source, restore_token: token })
            &&& started.state is None && started.last is None && !started.close_session
        }),
{
}

/// A session that streams stops its worker and closes when it is asked to, and is
/// stopped once the worker is done; a worker that ends by itself is a failure.
pub proof fn law_streaming_session_ends(reason: Seq<char>, keeps: bool)
    ensures
        ({
            let asked = portal::portal_step(
                PortalPhaseView::Streaming,
                PortalEventView::StopRequested,
                keeps,
            );
            let ended = portal::portal_step(
                PortalPhaseView::Streaming,
                PortalEventView::WorkerFinished,
                keeps,
            );
            let failed = portal::portal_step(
                PortalPhaseView::Streaming,
                PortalEventView::WorkerFailed(reason),
                keeps,
            );
            let stopped = portal::portal_step(asked.phase, PortalEventView::Joined, keeps);
            let broken = portal::portal_step(ended.phase, PortalEventView::Joined, keeps);
            &&& asked.stop_worker && asked.close_session
            &&& asked.state == Some(CaptureStateView::Stopping) && asked.last is None
            &&& stopped.phase is Ended
            &&& stopped.state == Some(CaptureStateView::Stopped)
            &&& stopped.last == Some(LastEventView::Closed)
            &&& !ended.stop_worker && ended.close_session && ended.last is None
            &&& broken.phase is Ended
            &&& broken.state is Some && broken.state->Some_0 is Failed
            &&& broken.last is Some && broken.last->Some_0 is Error
            &&& failed.phase is Ended && failed.close_session
            &&& failed.last is Some && failed.last->Some_0 is Error
        }),
{
}

/// A session that is asked to stop before it was granted is closed and tells so.
pub proof fn law_requested_session_can_be_stopped(keeps: bool)
    ensures
        ({
            let step = portal::portal_step(
                PortalPhaseView::Requesting,
                PortalEventView::StopRequested,
                keeps,
            );
            &&& step.phase is Ended && step.close_session
            &&& step.answer == Some(StartAnswerView::Failed(CaptureErrorView::Closed))
            &&& step.state == Some(CaptureStateView::Stopped)
        }),
{
}

/// Once a session has ended it does nothing more.
pub proof fn law_ended_session_stays_ended(event: PortalEventView, keeps: bool)
    ensures
        ({
            let step = portal::portal_step(PortalPhaseView::Ended, event, keeps);
            &&& step.phase is Ended
            &&& step.answer is None && step.state is None && step.last is None
            &&& step.open_node is None && !step.save_token
            &&& !step.stop_worker && !step.close_session
        }),
{
}

/// Whether a byte separates the words of an image's header.
pub open spec fn separates(b: u8) -> bool {
    b == ' ' as u8 || b == '\t' as u8 || b == '\n' as u8 || b == 12 || b == '\r' as u8
}

/// Whether a byte of a header, from a place on, is white space or in a comment: behind a
/// number sign with no line feed since.
pub open spec fn laid_out(data: Seq<u8>, from: int, p: int) -> bool {
    ||| separates(data[p])
    ||| exists|q: int|
        from <= q <= p && #[trigger] data[q] == '#' as u8 && forall|k: int|
            q <= k <= p ==> #[trigger] data[k] != '\n' as u8
}

/// A word of a header is what stands behind white space and comments, up to the next
/// white space or comment; where there is none, nothing but these is left.
pub proof fn law_words_stand_between_layout(data: Seq<u8>, i: int)
    requires
        0 <= i <= data.len(),
    ensures
        ({
            let word = ppm::next_token(data, i);
            &&& word is None ==> forall|p: int| i <= p < data.len() ==> laid_out(data, i, p)
            &&& word is Some ==> {
                let (start, end) = word->Some_0;
                &&& i <= start < end <= data.len()
                &&& forall|p: int| i <= p < start ==> laid_out(data, i, p)
                &&& forall|p: int|
                    start <= p < end ==> !separates(#[trigger] data[p]) && data[p] != '#' as u8
                &&& end < data.len() ==> separates(data[end]) || data[end] == '#' as u8
            }
        }),
{
    lemma_layout(data, i);
    lemma_word(data, ppm::layout_end(data, i));
}

proof fn lemma_word(data: Seq<u8>, i: int)
    requires
        0 <= i <= data.len(),
    ensures
        ({
            let end = ppm::token_end(data, i);
            &&& i <= end <= data.len()
            &&& forall|p: int|
                i <= p < end ==> !separates(#[trigger] data[p]) && data[p] != '#' as u8
            &&& end < data.len() ==> separates(data[end]) || data[end] == '#' as u8
        }),
    decreases data.len() - i,
{
    if i < data.len() && !ppm::is_space(data[i]) && data[i] != 35 {
        lemma_word(data, i + 1);
    }
}

proof fn lemma_spaces(data: Seq<u8>, i: int)
    requires
        0 <= i <= data.len(),
    ensures
        ({
            let end = ppm::spaces_end(data, i);
            &&& i <= end <= data.len()
            &&& forall|p: int| i <= p < end ==> separates(#[trigger] data[p])
            &&& end < data.len() ==> !separates(data[end])
        }),
    decreases data.len() - i,
{
    if i < data.len() && ppm::is_space(data[i]) {
        lemma_spaces(data, i + 1);
    }
}

proof fn lemma_comment(data: Seq<u8>, i: int)
    requires
        0 <= i <= data.len(),
    ensures
        ({
            let end = ppm::comment_end(data, i);
            &&& i <= end <= data.len()
            &&& forall|p: int| i <= p < end ==> #[trigger] data[p] != 10
            &&& end < data.len() ==> data[end] == 10
        }),
    decreases data.len() - i,
{
    if i < data.len() && data[i] != 10 {
        lemma_comment(data, i + 1);
    }
}

proof fn lemma_layout(data: Seq<u8>, i: int)
    requires
        0 <= i <= data.len(),
    ensures
        ({
            let end = ppm::layout_end(data, i);
            &&& i <= end <= data.len()
            &&& forall|p: int| i <= p < end ==> laid_out(data, i, p)
            &&& end < data.len() ==> !separates(data[end]) && data[end] != '#' as u8
        }),
    decreases data.len() - i,
{
    let j = ppm::spaces_end(data, i);
    let end = ppm::layout_end(data, i);
    lemma_spaces(data, i);
    if j < data.len() && data[j] == 35 {
        let k = ppm::comment_end(data, j);
        lemma_comment(data, j);
        lemma_layout(data, k);
        assert forall|p: int| i <= p < end implies laid_out(data, i, p) by {
            if p < j {
                assert(separates(data[p]));
            } else if p < k {
                assert(data[j] == '#' as u8);
            } else {
                assert(laid_out(data, k, p));
                if !separates(data[p]) {
                    let q = choose|q: int|
                        k <= q <= p && #[trigger] data[q] == '#' as u8 && forall|m: int|
                            q <= m <= p ==> #[trigger] data[m] != '\n' as u8;
                    assert(i <= q <= p && data[q] == '#' as u8);
                }
            }
        }
    } else {
        assert forall|p: int| i <= p < end implies laid_out(data, i, p) by {
            assert(separates(data[p]));
        }
    }
}

/// The pixels begin behind one byte of white space, or behind a carriage return with its
/// line feed; without white space there they do not begin.
pub proof fn law_pixels_begin_behind_one_separator(data: Seq<u8>, i: int)
    requires
        0 <= i <= data.len(),
    ensures
        ({
            let line_end = i + 1 < data.len() && data[i] == '\r' as u8 && data[i + 1] == '\n' as u8;
            let begin = ppm::raster_start(data, i);
            &&& begin is Some <==> i < data.len() && separates(data[i])
            &&& line_end ==> begin == Some(i + 2)
            &&& begin is Some && !line_end ==> begin == Some(i + 1)
        }),
{
}

/// A number of a header is the value of its word, and what follows is behind that word.
pub proof fn law_numbers_are_the_values_of_their_words(data: Seq<u8>, i: int, name: Seq<char>)
    ensures
        ({
            let word = ppm::next_token(data, i);
            let number = ppm::next_number(data, i, name);
            &&& number is Ok ==> {
                &&& word is Some
                &&& number->Ok_0.1 == word->Some_0.1
                &&& text::unsigned_value(
                    data.subrange(word->Some_0.0, word->Some_0.1),
                    usize::MAX as nat,
                ) == Some(number->Ok_0.0)
            }
            &&& word is None ==> number is Err
        }),
{
}

/// The header of an image that is read is the word `P6` and three numbers: its width, its
/// height, neither of them zero, and 255. All of its pixels follow the separator behind
/// them.
pub proof fn law_image_is_its_header_and_pixels(data: Seq<u8>)
    ensures
        ({
            let magic = ppm::next_token(data, 0);
            let width = ppm::next_number(data, magic->Some_0.1, "width"@);
            let height = ppm::next_number(data, width->Ok_0.1, "height"@);
            let largest = ppm::next_number(data, height->Ok_0.1, "maximum color value"@);
            let begin = ppm::raster_start(data, largest->Ok_0.1);
            let size = 3 * width->Ok_0.0 * height->Ok_0.0;
            ppm::ppm_image(data) is Ok ==> {
                &&& magic is Some
                &&& data.subrange(magic->Some_0.0, magic->Some_0.1) == seq!['P' as u8, '6' as u8]
                &&& width is Ok && width->Ok_0.0 > 0
                &&& height is Ok && height->Ok_0.0 > 0
                &&& largest is Ok && largest->Ok_0.0 == 255
                &&& begin is Some
                &&& begin->Some_0 + size <= data.len()
                &&& ppm::ppm_image(data)->Ok_0 == (width->Ok_0.0, height->Ok_0.0, begin->Some_0)
                &&& ppm::ppm_frame(data, width->Ok_0.0, height->Ok_0.0, begin->Some_0).data.len()
                    == size
            }
        }),
{
    let width = ppm::ppm_image(data)->Ok_0.0;
    let height = ppm::ppm_image(data)->Ok_0.1;
    assert(3 * width * height >= 0) by (nonlinear_arith)
        requires
            width >= 0,
            height >= 0,
    ;
}

/// The frame of an image has its width and its height, packed rows of red, green and blue,
/// and the bytes behind the header as its pixels.
pub proof fn law_image_becomes_its_frame(
    data: Seq<u8>,
    width: nat,
    height: nat,
    start: int,
    i: int,
)
    requires
        3 * width <= i32::MAX,
        height <= u32::MAX,
        0 <= start,
        0 <= i < 3 * width * height,
        start + 3 * width * height <= data.len(),
    ensures
        ({
            let image = ppm::ppm_frame(data, width, height, start);
            &&& image.format.width == width
            &&& image.format.height == height
            &&& image.format.stride == 3 * width
            &&& image.format.pixel_format == PixelFormat::Rgb
            &&& image.data.len() == 3 * width * height
            &&& image.data[i] == data[start + i]
        }),
{
}

/// An error that holds no message has one of its own.
pub proof fn law_errors_without_a_message_have_one()
    ensures
        frame::capture_error_text(CaptureErrorView::UserCancelled)
            == "screen capture was cancelled by the user"@,
        frame::capture_error_text(CaptureErrorView::ConsentRequired)
            == "screen capture requires user consent"@,
        frame::capture_error_text(CaptureErrorView::Closed) == "screen capture stopped"@,
        frame::capture_error_text(CaptureErrorView::ShutdownTimedOut)
            == "screen capture did not stop within 3 seconds"@,
{
}

/// A frame that is refused is refused for the first of its faults: no pixels, a row that
/// is longer than its stride, or too few bytes.
pub proof fn law_refused_frame_is_told_why(format: FrameFormat, len: nat, row: int, stride: int)
    requires
        len <= usize::MAX,
        format.pixel_format == PixelFormat::Rgb ==> row == 3 * format.width,
        format.pixel_format != PixelFormat::Rgb ==> row == 4 * format.width,
        format.stride == 0 ==> stride == row,
        format.stride > 0 ==> stride == format.stride,
        format.stride < 0 ==> stride == -format.stride,
        row <= usize::MAX,
    ensures
        ({
            let problem = frame::frame_problem(format, len);
            let empty = format.width == 0 || format.height == 0;
            let required = (format.height - 1) * stride + row;
            &&& empty ==> problem == Some("frame dimensions must be non-zero"@)
            &&& !empty && stride < row ==> problem == Some(
                "frame stride is shorter than a pixel row"@,
            )
            &&& !empty && stride >= row && required > usize::MAX ==> problem == Some(
                "frame size overflows"@,
            )
            &&& !empty && stride >= row && len < required <= usize::MAX ==> problem == Some(
                "frame data is truncated"@,
            )
        }),
{
    assert(frame::row_size(format) == row);
    assert(frame::stride_size(format) == stride);
    assert(frame::minimum_size(format) == (format.height - 1) * stride + row);
}

} // verus!
