//! Captured frames, what makes them valid, and the errors of capturing.
use vstd::prelude::*;

verus! {

/// Pixel layouts of captured frames.
#[derive(Clone, Copy, Debug, PartialEq, Eq, Structural)]
pub enum PixelFormat {
    Bgrx,
    Bgra,
    Rgbx,
    Rgba,
    /// Packed RGB, as in binary PPM images.
    Rgb,
}

impl DeepView for PixelFormat {
    type V = PixelFormat;

    open spec fn deep_view(&self) -> PixelFormat {
        *self
    }
}

/// The bytes that a pixel takes.
pub open spec fn pixel_size(format: PixelFormat) -> nat {
    match format {
        PixelFormat::Rgb => 3,
        _ => 4,
    }
}

/// Where red, green and blue stand in a pixel.
pub open spec fn color_offsets(format: PixelFormat) -> (int, int, int) {
    match format {
        PixelFormat::Bgrx | PixelFormat::Bgra => (2, 1, 0),
        _ => (0, 1, 2),
    }
}

impl PixelFormat {
    /// The bytes that a pixel takes.
    pub fn bytes_per_pixel(self) -> (r: usize)
        ensures
            r == pixel_size(self),
    {
        match self {
            PixelFormat::Rgb => 3,
            PixelFormat::Bgrx | PixelFormat::Bgra | PixelFormat::Rgbx | PixelFormat::Rgba => 4,
        }
    }

    /// Where red, green and blue stand in a pixel.
    pub fn rgb_offsets(self) -> (r: (usize, usize, usize))
        ensures
            r.0 == color_offsets(self).0,
            r.1 == color_offsets(self).1,
            r.2 == color_offsets(self).2,
    {
        match self {
            PixelFormat::Bgrx | PixelFormat::Bgra => (2, 1, 0),
            PixelFormat::Rgbx | PixelFormat::Rgba | PixelFormat::Rgb => (0, 1, 2),
        }
    }
}

/// Format metadata associated with one frame. It may change between frames.
#[derive(Clone, Copy, Debug, PartialEq, Eq, Structural)]
pub struct FrameFormat {
    pub width: u32,
    pub height: u32,
    /// Bytes from one row to the next; negative when the bottom row is stored
    /// first, zero when rows follow each other without padding.
    pub stride: i32,
    pub pixel_format: PixelFormat,
}

/// Observable state of a capture session.
#[derive(Debug, PartialEq, Eq)]
pub enum CaptureState {
    Idle,
    ConsentRequired,
    RequestingConsent,
    Connecting,
    Streaming,
    Cancelled,
    Stopping,
    Stopped,
    Failed(String),
}

/// The mathematical value of [`CaptureState`].
#[verifier::ext_equal]
pub enum CaptureStateView {
    Idle,
    ConsentRequired,
    RequestingConsent,
    Connecting,
    Streaming,
    Cancelled,
    Stopping,
    Stopped,
    Failed(Seq<char>),
}

impl DeepView for CaptureState {
    type V = CaptureStateView;

    open spec fn deep_view(&self) -> CaptureStateView {
        match self {
            CaptureState::Idle => CaptureStateView::Idle,
            CaptureState::ConsentRequired => CaptureStateView::ConsentRequired,
            CaptureState::RequestingConsent => CaptureStateView::RequestingConsent,
            CaptureState::Connecting => CaptureStateView::Connecting,
            CaptureState::Streaming => CaptureStateView::Streaming,
            CaptureState::Cancelled => CaptureStateView::Cancelled,
            CaptureState::Stopping => CaptureStateView::Stopping,
            CaptureState::Stopped => CaptureStateView::Stopped,
            CaptureState::Failed(value) => CaptureStateView::Failed(value.deep_view()),
        }
    }
}

impl Clone for CaptureState {
    fn clone(&self) -> (r: Self)
        ensures
            r.deep_view() == self.deep_view(),
    {
        match self {
            CaptureState::Idle => CaptureState::Idle,
            CaptureState::ConsentRequired => CaptureState::ConsentRequired,
            CaptureState::RequestingConsent => CaptureState::RequestingConsent,
            CaptureState::Connecting => CaptureState::Connecting,
            CaptureState::Streaming => CaptureState::Streaming,
            CaptureState::Cancelled => CaptureState::Cancelled,
            CaptureState::Stopping => CaptureState::Stopping,
            CaptureState::Stopped => CaptureState::Stopped,
            CaptureState::Failed(value) => CaptureState::Failed(value.clone()),
        }
    }
}

/// Why capturing failed; cancellation and missing consent are told apart.
#[derive(Debug, PartialEq, Eq)]
pub enum CaptureError {
    UserCancelled,
    ConsentRequired,
    Closed,
    InvalidFrame(String),
    Backend(String),
    ShutdownTimedOut,
}

/// The mathematical value of [`CaptureError`].
#[verifier::ext_equal]
pub enum CaptureErrorView {
    UserCancelled,
    ConsentRequired,
    Closed,
    InvalidFrame(Seq<char>),
    Backend(Seq<char>),
    ShutdownTimedOut,
}

impl DeepView for CaptureError {
    type V = CaptureErrorView;

    open spec fn deep_view(&self) -> CaptureErrorView {
        match self {
            CaptureError::UserCancelled => CaptureErrorView::UserCancelled,
            CaptureError::ConsentRequired => CaptureErrorView::ConsentRequired,
            CaptureError::Closed => CaptureErrorView::Closed,
            CaptureError::InvalidFrame(value) => CaptureErrorView::InvalidFrame(value.deep_view()),
            CaptureError::Backend(value) => CaptureErrorView::Backend(value.deep_view()),
            CaptureError::ShutdownTimedOut => CaptureErrorView::ShutdownTimedOut,
        }
    }
}

impl Clone for CaptureError {
    fn clone(&self) -> (r: Self)
        ensures
            r.deep_view() == self.deep_view(),
    {
        match self {
            CaptureError::UserCancelled => CaptureError::UserCancelled,
            CaptureError::ConsentRequired => CaptureError::ConsentRequired,
            CaptureError::Closed => CaptureError::Closed,
            CaptureError::InvalidFrame(value) => CaptureError::InvalidFrame(value.clone()),
            CaptureError::Backend(value) => CaptureError::Backend(value.clone()),
            CaptureError::ShutdownTimedOut => CaptureError::ShutdownTimedOut,
        }
    }
}

/// The text that describes a capture error.
pub open spec fn capture_error_text(error: CaptureErrorView) -> Seq<char> {
    match error {
        CaptureErrorView::UserCancelled => "screen capture was cancelled by the user"@,
        CaptureErrorView::ConsentRequired => "screen capture requires user consent"@,
        CaptureErrorView::Closed => "screen capture stopped"@,
        CaptureErrorView::InvalidFrame(message) => message,
        CaptureErrorView::Backend(message) => message,
        CaptureErrorView::ShutdownTimedOut => "screen capture did not stop within 3 seconds"@,
    }
}

impl CaptureError {
    /// Describes the error.
    pub fn message(&self) -> (r: String)
        ensures
            r@ == capture_error_text(self.deep_view()),
    {
        match self {
            CaptureError::UserCancelled => "screen capture was cancelled by the user".to_owned(),
            CaptureError::ConsentRequired => "screen capture requires user consent".to_owned(),
            CaptureError::Closed => "screen capture stopped".to_owned(),
            CaptureError::InvalidFrame(message) => message.clone(),
            CaptureError::Backend(message) => message.clone(),
            CaptureError::ShutdownTimedOut => {
                "screen capture did not stop within 3 seconds".to_owned()
            },
        }
    }
}

/// The state that an error leaves a session in.
pub open spec fn error_state(error: CaptureErrorView) -> CaptureStateView {
    match error {
        CaptureErrorView::UserCancelled => CaptureStateView::Cancelled,
        CaptureErrorView::ConsentRequired => CaptureStateView::ConsentRequired,
        _ => CaptureStateView::Failed(capture_error_text(error)),
    }
}

/// The state that an error leaves a session in.
pub fn state_for_error(error: &CaptureError) -> (r: CaptureState)
    ensures
        r.deep_view() == error_state(error.deep_view()),
{
    match error {
        CaptureError::UserCancelled => CaptureState::Cancelled,
        CaptureError::ConsentRequired => CaptureState::ConsentRequired,
        other => CaptureState::Failed(other.message()),
    }
}

pub(crate) fn invalid_frame(message: &str) -> (r: CaptureError)
    ensures
        r.deep_view() == CaptureErrorView::InvalidFrame(message@),
{
    CaptureError::InvalidFrame(message.to_owned())
}

/// The bytes of the pixels of one row.
pub open spec fn row_size(format: FrameFormat) -> nat {
    format.width as nat * pixel_size(format.pixel_format)
}

/// The bytes from one row to the next, whichever way the rows are stored.
pub open spec fn stride_size(format: FrameFormat) -> nat {
    if format.stride == 0 {
        row_size(format)
    } else if format.stride < 0 {
        (-format.stride) as nat
    } else {
        format.stride as nat
    }
}

/// The bytes that a frame needs: the last row may lack its padding.
pub open spec fn minimum_size(format: FrameFormat) -> int {
    (format.height - 1) * stride_size(format) + row_size(format)
}

/// What is wrong with a frame of this format and this many bytes, if anything is.
pub open spec fn frame_problem(format: FrameFormat, len: nat) -> Option<Seq<char>> {
    if format.width == 0 || format.height == 0 {
        Some("frame dimensions must be non-zero"@)
    } else if row_size(format) > usize::MAX {
        Some("frame row size overflows"@)
    } else if stride_size(format) < row_size(format) {
        Some("frame stride is shorter than a pixel row"@)
    } else if minimum_size(format) > usize::MAX {
        Some("frame size overflows"@)
    } else if len < minimum_size(format) {
        Some("frame data is truncated"@)
    } else {
        None
    }
}

/// Bytes per row, or an error where they cannot be counted.
fn effective_stride(format: FrameFormat) -> (r: Result<usize, CaptureError>)
    ensures
        r is Err <==> format.stride == 0 && row_size(format) > usize::MAX,
        r matches Ok(stride) ==> stride == stride_size(format),
        r matches Err(error) ==> error.deep_view() == CaptureErrorView::InvalidFrame(
            "frame row size overflows"@,
        ),
{
    if format.stride == 0 {
        match row_bytes(format) {
            Some(bytes) => Ok(bytes),
            None => Err(invalid_frame("frame row size overflows")),
        }
    } else if format.stride < 0 {
        Ok((-(format.stride as i64)) as usize)
    } else {
        Ok(format.stride as usize)
    }
}

/// The bytes of the pixels of one row, if they can be counted.
pub(crate) fn row_bytes(format: FrameFormat) -> (r: Option<usize>)
    ensures
        r is Some <==> row_size(format) <= usize::MAX,
        r matches Some(bytes) ==> bytes == row_size(format),
{
    (format.width as usize).checked_mul(format.pixel_format.bytes_per_pixel())
}

fn validate_frame(format: FrameFormat, data_len: usize) -> (r: Result<(), CaptureError>)
    ensures
        r is Ok <==> frame_problem(format, data_len as nat) is None,
        r matches Err(error) ==> error.deep_view() == CaptureErrorView::InvalidFrame(
            frame_problem(format, data_len as nat)->Some_0,
        ),
{
    if format.width == 0 || format.height == 0 {
        return Err(invalid_frame("frame dimensions must be non-zero"));
    }
    let stride: usize = match effective_stride(format) {
        Ok(stride) => stride,
        Err(error) => return Err(error),
    };
    let row: usize = match row_bytes(format) {
        Some(row) => row,
        None => return Err(invalid_frame("frame row size overflows")),
    };
    if stride < row {
        return Err(invalid_frame("frame stride is shorter than a pixel row"));
    }
    let height: usize = format.height as usize;
    let minimum: usize = match (height - 1).checked_mul(stride) {
        Some(prefix) => match prefix.checked_add(row) {
            Some(minimum) => minimum,
            None => return Err(invalid_frame("frame size overflows")),
        },
        None => return Err(invalid_frame("frame size overflows")),
    };
    if data_len < minimum {
        return Err(invalid_frame("frame data is truncated"));
    }
    Ok(())
}

/// A capture frame that owns its bytes, as many as its format needs.
#[derive(Debug, PartialEq, Eq)]
pub struct OwnedFrame {
    format: FrameFormat,
    data: Vec<u8>,
}

/// The mathematical value of [`OwnedFrame`].
#[verifier::ext_equal]
pub struct OwnedFrameView {
    pub format: FrameFormat,
    pub data: Seq<u8>,
}

impl DeepView for OwnedFrame {
    type V = OwnedFrameView;

    closed spec fn deep_view(&self) -> OwnedFrameView {
        OwnedFrameView { format: self.format, data: self.data@ }
    }
}

impl OwnedFrame {
    #[verifier::type_invariant]
    spec fn sufficient(&self) -> bool {
        frame_problem(self.format, self.data@.len()) is None
    }

    /// Takes bytes that suffice for the format.
    pub fn new(format: FrameFormat, data: Vec<u8>) -> (r: Result<Self, CaptureError>)
        ensures
            r is Ok <==> frame_problem(format, data@.len()) is None,
            r matches Ok(frame) ==> frame.deep_view() == (OwnedFrameView { format, data: data@ }),
            r matches Err(error) ==> error.deep_view() == CaptureErrorView::InvalidFrame(
                frame_problem(format, data@.len())->Some_0,
            ),
    {
        match validate_frame(format, data.len()) {
            Ok(()) => Ok(OwnedFrame { format, data }),
            Err(error) => Err(error),
        }
    }

    /// The format of the frame.
    pub fn format(&self) -> (r: FrameFormat)
        ensures
            r == self.deep_view().format,
    {
        self.format
    }

    /// The bytes of the frame.
    pub fn data(&self) -> (r: &[u8])
        ensures
            r@ == self.deep_view().data,
            frame_problem(self.deep_view().format, r@.len()) is None,
    {
        proof {
            use_type_invariant(self);
        }
        self.data.as_slice()
    }

    /// The frame, borrowed.
    pub fn view(&self) -> (r: FrameView<'_>)
        ensures
            r.format == self.deep_view().format,
            r.data@ == self.deep_view().data,
            frame_problem(r.format, r.data@.len()) is None,
    {
        proof {
            use_type_invariant(self);
        }
        FrameView { format: self.format, data: self.data.as_slice() }
    }
}

impl Clone for OwnedFrame {
    fn clone(&self) -> (r: Self)
        ensures
            r.deep_view() == self.deep_view(),
    {
        proof {
            use_type_invariant(self);
        }
        let data: Vec<u8> = self.data.clone();
        assert(data@ =~= self.data@);
        OwnedFrame { format: self.format, data }
    }
}

/// Borrowed frame data suitable for direct consumption by a sampling engine.
#[derive(Clone, Copy, Debug)]
pub struct FrameView<'a> {
    pub format: FrameFormat,
    pub data: &'a [u8],
}

/// The row of the stored bytes that holds the row `y` from the top.
pub open spec fn stored_row(format: FrameFormat, y: int) -> int {
    if format.stride < 0 {
        format.height - 1 - y
    } else {
        y
    }
}

/// Where the pixel in column `x` of the row `y` from the top begins.
pub open spec fn pixel_offset(format: FrameFormat, x: int, y: int) -> int {
    stored_row(format, y) * stride_size(format) + x * pixel_size(format.pixel_format)
}

/// The color that is stored at a place in the bytes.
pub open spec fn color_at(format: PixelFormat, data: Seq<u8>, offset: int) -> Seq<u8> {
    let (red, green, blue) = color_offsets(format);
    seq![data[offset + red], data[offset + green], data[offset + blue]]
}

/// Whether a pixel lies in the image and its color in the bytes.
pub open spec fn pixel_present(format: FrameFormat, len: nat, x: int, y: int) -> bool {
    &&& 0 <= x < format.width
    &&& 0 <= y < format.height
    &&& format.stride == 0 ==> row_size(format) <= usize::MAX
    &&& pixel_offset(format, x, y) + 3 <= len
}

impl<'a> FrameView<'a> {
    /// Returns RGB bytes in logical top-to-bottom coordinates.
    pub fn rgb_at(&self, x: u32, y: u32) -> (r: Option<[u8; 3]>)
        ensures
            r is Some <==> pixel_present(self.format, self.data@.len(), x as int, y as int),
            r matches Some(rgb) ==> rgb@ == color_at(
                self.format.pixel_format,
                self.data@,
                pixel_offset(self.format, x as int, y as int),
            ),
    {
        if x >= self.format.width || y >= self.format.height {
            return None;
        }
        let stride: usize = match effective_stride(self.format) {
            Ok(stride) => stride,
            Err(_) => return None,
        };
        let row: usize = if self.format.stride < 0 {
            self.format.height as usize - 1 - y as usize
        } else {
            y as usize
        };
        let len: usize = self.data.len();
        let ghost offset = pixel_offset(self.format, x as int, y as int);
        proof {
            assert(row * stride >= 0 && x * pixel_size(self.format.pixel_format) >= 0)
                by (nonlinear_arith)
                requires
                    row >= 0,
                    stride >= 0,
                    x >= 0,
                    pixel_size(self.format.pixel_format) >= 0,
            ;
        }
        let start: usize = match row.checked_mul(stride) {
            Some(start) => start,
            None => return None,
        };
        let column: usize = match (x as usize).checked_mul(
            self.format.pixel_format.bytes_per_pixel(),
        ) {
            Some(column) => column,
            None => return None,
        };
        let at: usize = match start.checked_add(column) {
            Some(at) => at,
            None => return None,
        };
        if len < 3 || at > len - 3 {
            return None;
        }
        let (red, green, blue) = self.format.pixel_format.rgb_offsets();
        let rgb: [u8; 3] = [self.data[at + red], self.data[at + green], self.data[at + blue]];
        assert(rgb@ =~= color_at(self.format.pixel_format, self.data@, offset));
        Some(rgb)
    }
}

/// Every pixel of a valid frame has a color.
pub proof fn law_valid_frame_covers_every_pixel(format: FrameFormat, len: nat, x: int, y: int)
    requires
        frame_problem(format, len) is None,
        0 <= x < format.width,
        0 <= y < format.height,
    ensures
        pixel_present(format, len, x, y),
{
    let row = stored_row(format, y);
    let stride = stride_size(format) as int;
    let size = pixel_size(format.pixel_format) as int;
    assert(row * stride <= (format.height - 1) * stride) by (nonlinear_arith)
        requires
            0 <= row <= format.height - 1,
            0 <= stride,
    ;
    assert(x * size + size <= format.width * size) by (nonlinear_arith)
        requires
            x + 1 <= format.width,
            0 <= size,
    ;
}

/// Storing the bottom row first shows the same rows the other way round.
pub proof fn law_negative_stride_flips_rows(format: FrameFormat, flipped: FrameFormat, x: int, y: int)
    requires
        format.stride > 0,
        flipped == (FrameFormat { stride: (-format.stride) as i32, ..format }),
    ensures
        pixel_offset(flipped, x, y) == pixel_offset(format, x, format.height - 1 - y),
{
}

/// Two different pixels of a valid frame do not share a byte.
pub proof fn law_pixels_do_not_overlap(
    format: FrameFormat,
    len: nat,
    x1: int,
    y1: int,
    x2: int,
    y2: int,
)
    requires
        frame_problem(format, len) is None,
        0 <= x1 < format.width,
        0 <= x2 < format.width,
        0 <= y1 < format.height,
        0 <= y2 < format.height,
        x1 != x2 || y1 != y2,
    ensures
        ({
            let size = pixel_size(format.pixel_format);
            ||| pixel_offset(format, x1, y1) + size <= pixel_offset(format, x2, y2)
            ||| pixel_offset(format, x2, y2) + size <= pixel_offset(format, x1, y1)
        }),
{
    let size = pixel_size(format.pixel_format) as int;
    let stride = stride_size(format) as int;
    let r1 = stored_row(format, y1);
    let r2 = stored_row(format, y2);
    assert(x1 * size + size <= format.width * size && x2 * size + size <= format.width * size
        && x1 * size >= 0 && x2 * size >= 0) by (nonlinear_arith)
        requires
            0 <= x1,
            x1 + 1 <= format.width,
            0 <= x2,
            x2 + 1 <= format.width,
            0 <= size,
    ;
    if r1 < r2 {
        assert(r1 * stride + stride <= r2 * stride) by (nonlinear_arith)
            requires
                r1 + 1 <= r2,
                0 <= stride,
        ;
    } else if r2 < r1 {
        assert(r2 * stride + stride <= r1 * stride) by (nonlinear_arith)
            requires
                r2 + 1 <= r1,
                0 <= stride,
        ;
    } else if x1 < x2 {
        assert(x1 * size + size <= x2 * size) by (nonlinear_arith)
            requires
                x1 + 1 <= x2,
                0 <= size,
        ;
    } else {
        assert(x2 * size + size <= x1 * size) by (nonlinear_arith)
            requires
                x2 + 1 <= x1,
                0 <= size,
        ;
    }
}

} // verus!
