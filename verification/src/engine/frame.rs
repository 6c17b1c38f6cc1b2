//! Frames as the sampler reads them.
use crate::text;
use vstd::prelude::*;

verus! {

/// Pixel layouts that can be sampled.
#[derive(Clone, Copy, Debug, PartialEq, Eq, Structural)]
pub enum PixelFormat {
    Rgb8,
    Rgba8,
    Rgbx8,
    Bgra8,
    Bgrx8,
}

/// Why a frame cannot be sampled.
#[derive(Clone, Copy, Debug, PartialEq, Eq, Structural)]
pub enum FrameError {
    EmptyDimensions,
    DimensionsOverflow,
    StrideTooSmall { stride: usize, row_bytes: usize },
    BufferTooSmall { actual: usize, required: usize },
}

impl FrameError {
    /// The text that describes the error.
    pub open spec fn message_text(self) -> Seq<char> {
        match self {
            FrameError::EmptyDimensions => "frame width and height must be non-zero"@,
            FrameError::DimensionsOverflow => "frame dimensions overflow addressable memory"@,
            FrameError::StrideTooSmall { stride, row_bytes } => "stride "@ + text::decimal_text(
                stride as nat,
            ) + " is smaller than packed row size "@ + text::decimal_text(row_bytes as nat),
            FrameError::BufferTooSmall { actual, required } => "frame buffer has "@
                + text::decimal_text(actual as nat) + " bytes but at least "@ + text::decimal_text(
                required as nat,
            ) + " are required"@,
        }
    }

    /// Describes the error.
    pub fn message(&self) -> (r: String)
        ensures
            r@ == self.message_text(),
    {
        match self {
            FrameError::EmptyDimensions => "frame width and height must be non-zero".to_owned(),
            FrameError::DimensionsOverflow => {
                "frame dimensions overflow addressable memory".to_owned()
            },
            FrameError::StrideTooSmall { stride, row_bytes } => {
                let mut r: String = text::concat("stride ", text::decimal(*stride as u64).as_str());
                r.append(" is smaller than packed row size ");
                r.append(text::decimal(*row_bytes as u64).as_str());
                r
            },
            FrameError::BufferTooSmall { actual, required } => {
                let mut r: String = text::concat(
                    "frame buffer has ",
                    text::decimal(*actual as u64).as_str(),
                );
                r.append(" bytes but at least ");
                r.append(text::decimal(*required as u64).as_str());
                r.append(" are required");
                r
            },
        }
    }
}

/// The bytes that a pixel takes.
pub open spec fn pixel_size(format: PixelFormat) -> nat {
    match format {
        PixelFormat::Rgb8 => 3,
        _ => 4,
    }
}

/// The bytes from one row to the next, whichever way the rows are stored.
pub open spec fn stride_size(stride: i32) -> nat {
    if stride < 0 {
        (-stride) as nat
    } else {
        stride as nat
    }
}

/// The bytes that an image needs: the last row may lack its padding.
pub open spec fn required_size(width: nat, height: nat, stride: i32, format: PixelFormat) -> int {
    (height - 1) * stride_size(stride) + width * pixel_size(format)
}

/// Why an image of these dimensions cannot be sampled, if it cannot.
pub open spec fn frame_problem(
    len: nat,
    width: nat,
    height: nat,
    stride: i32,
    format: PixelFormat,
) -> Option<FrameError> {
    let row = width * pixel_size(format);
    let required = required_size(width, height, stride, format);
    if width == 0 || height == 0 {
        Some(FrameError::EmptyDimensions)
    } else if row > usize::MAX || stride == i32::MIN {
        Some(FrameError::DimensionsOverflow)
    } else if stride_size(stride) < row {
        Some(
            FrameError::StrideTooSmall {
                stride: stride_size(stride) as usize,
                row_bytes: row as usize,
            },
        )
    } else if required > usize::MAX {
        Some(FrameError::DimensionsOverflow)
    } else if len < required {
        Some(FrameError::BufferTooSmall { actual: len as usize, required: required as usize })
    } else {
        None
    }
}

/// A frame whose pixels all lie within its bytes.
#[derive(Clone, Copy, Debug)]
pub struct FrameView<'a> {
    data: &'a [u8],
    width: usize,
    height: usize,
    stride: i32,
    format: PixelFormat,
}

/// The pixels around a place, edges included.
#[derive(Clone, Copy, Debug, PartialEq, Eq, Structural)]
pub struct SampleWindow {
    pub min_x: usize,
    pub max_x: usize,
    pub min_y: usize,
    pub max_y: usize,
}

/// The smallest coordinate within a radius of a center.
pub open spec fn window_start(center: int, radius: int) -> int {
    if center < radius {
        0
    } else {
        center - radius
    }
}

/// The largest coordinate within a radius of a center, inside the image.
pub open spec fn window_end(center: int, radius: int, size: int) -> int {
    if center + radius < size - 1 {
        center + radius
    } else {
        size - 1
    }
}

/// A color as the frame holds it: red, green, blue.
#[derive(Clone, Copy, Debug, PartialEq, Eq, Structural)]
pub struct Rgb8 {
    pub red: u8,
    pub green: u8,
    pub blue: u8,
}

impl<'a> FrameView<'a> {
    /// The bytes of the frame.
    pub closed spec fn bytes(&self) -> Seq<u8> {
        self.data@
    }

    /// The pixels in a row.
    pub closed spec fn columns(&self) -> nat {
        self.width as nat
    }

    /// The rows.
    pub closed spec fn rows(&self) -> nat {
        self.height as nat
    }

    /// The bytes from one row to the next, negative when the bottom row is first.
    pub closed spec fn row_step(&self) -> i32 {
        self.stride
    }

    /// The pixel layout.
    pub closed spec fn layout(&self) -> PixelFormat {
        self.format
    }

    /// Whether the bytes suffice for the pixels.
    pub open spec fn sufficient(&self) -> bool {
        frame_problem(
            self.bytes().len(),
            self.columns(),
            self.rows(),
            self.row_step(),
            self.layout(),
        ) is None
    }

    #[verifier::type_invariant]
    spec fn valid(&self) -> bool {
        frame_problem(
            self.data@.len(),
            self.width as nat,
            self.height as nat,
            self.stride,
            self.format,
        ) is None
    }

    /// Takes bytes that suffice for the dimensions.
    pub fn new(data: &'a [u8], width: usize, height: usize, stride: i32, format: PixelFormat) -> (r:
        Result<Self, FrameError>)
        ensures
            r is Ok <==> frame_problem(
                data@.len(),
                width as nat,
                height as nat,
                stride,
                format,
            ) is None,
            r matches Ok(view) ==> {
                &&& view.bytes() == data@
                &&& view.columns() == width
                &&& view.rows() == height
                &&& view.row_step() == stride
                &&& view.layout() == format
            },
            r matches Err(error) ==> Some(error) == frame_problem(
                data@.len(),
                width as nat,
                height as nat,
                stride,
                format,
            ),
    {
        if width == 0 || height == 0 {
            return Err(FrameError::EmptyDimensions);
        }
        let size: usize = if format == PixelFormat::Rgb8 {
            3
        } else {
            4
        };
        let row_bytes: usize = match width.checked_mul(size) {
            Some(row_bytes) => row_bytes,
            None => return Err(FrameError::DimensionsOverflow),
        };
        if stride == i32::MIN {
            return Err(FrameError::DimensionsOverflow);
        }
        let step: usize = if stride < 0 {
            (-stride) as usize
        } else {
            stride as usize
        };
        if step < row_bytes {
            return Err(FrameError::StrideTooSmall { stride: step, row_bytes });
        }
        let required: usize = match (height - 1).checked_mul(step) {
            Some(offset) => match offset.checked_add(row_bytes) {
                Some(required) => required,
                None => return Err(FrameError::DimensionsOverflow),
            },
            None => return Err(FrameError::DimensionsOverflow),
        };
        let actual: usize = data.len();
        if actual < required {
            return Err(FrameError::BufferTooSmall { actual, required });
        }
        Ok(FrameView { data, width, height, stride, format })
    }

    /// The pixels in a row.
    pub fn width(&self) -> (r: usize)
        ensures
            r == self.columns(),
            r > 0,
    {
        proof {
            use_type_invariant(self);
        }
        self.width
    }

    /// The rows.
    pub fn height(&self) -> (r: usize)
        ensures
            r == self.rows(),
            r > 0,
    {
        proof {
            use_type_invariant(self);
        }
        self.height
    }

    /// The bytes from one row to the next, negative when the bottom row is first.
    pub fn stride(&self) -> (r: i32)
        ensures
            r == self.row_step(),
    {
        self.stride
    }

    /// The pixel layout.
    pub fn format(&self) -> (r: PixelFormat)
        ensures
            r == self.layout(),
    {
        self.format
    }

    /// Where a pixel begins, in columns from the left and rows from the top.
    pub open spec fn pixel_offset(&self, x: int, y: int) -> int {
        let row = if self.row_step() < 0 {
            self.rows() - 1 - y
        } else {
            y
        };
        row * stride_size(self.row_step()) + x * pixel_size(self.layout())
    }

    /// The color of a pixel, in columns from the left and rows from the top.
    pub open spec fn color(&self, x: int, y: int) -> Rgb8 {
        let at = self.pixel_offset(x, y);
        let (first, second, third) = (
            self.bytes()[at],
            self.bytes()[at + 1],
            self.bytes()[at + 2],
        );
        match self.layout() {
            PixelFormat::Bgra8 | PixelFormat::Bgrx8 => Rgb8 {
                red: third,
                green: second,
                blue: first,
            },
            _ => Rgb8 { red: first, green: second, blue: third },
        }
    }

    /// Reads a pixel, in columns from the left and rows from the top.
    pub fn pixel(&self, x: usize, y: usize) -> (r: Rgb8)
        requires
            x < self.columns(),
            y < self.rows(),
        ensures
            r == self.color(x as int, y as int),
    {
        proof {
            use_type_invariant(self);
            law_pixel_lies_within_the_bytes(*self, x as int, y as int);
        }
        let step: usize = if self.stride < 0 {
            (-self.stride) as usize
        } else {
            self.stride as usize
        };
        let row: usize = if self.stride < 0 {
            self.height - 1 - y
        } else {
            y
        };
        let size: usize = if self.format == PixelFormat::Rgb8 {
            3
        } else {
            4
        };
        let length: usize = self.data.len();
        proof {
            assert(row * step >= 0 && x * size >= 0) by (nonlinear_arith)
                requires
                    row >= 0,
                    step >= 0,
                    x >= 0,
                    size >= 0,
            ;
        }
        let at: usize = row * step + x * size;
        let first: u8 = self.data[at];
        let second: u8 = self.data[at + 1];
        let third: u8 = self.data[at + 2];
        match self.format {
            PixelFormat::Rgb8 | PixelFormat::Rgba8 | PixelFormat::Rgbx8 => Rgb8 {
                red: first,
                green: second,
                blue: third,
            },
            PixelFormat::Bgra8 | PixelFormat::Bgrx8 => Rgb8 {
                red: third,
                green: second,
                blue: first,
            },
        }
    }

    /// The pixels within a radius of a place, as far as the image reaches.
    pub fn window(&self, center_x: usize, center_y: usize, radius: u32) -> (r: SampleWindow)
        ensures
            r.min_x == window_start(center_x as int, radius as int),
            r.max_x == window_end(center_x as int, radius as int, self.columns() as int),
            r.min_y == window_start(center_y as int, radius as int),
            r.max_y == window_end(center_y as int, radius as int, self.rows() as int),
            r.max_x < self.columns(),
            r.max_y < self.rows(),
    {
        proof {
            use_type_invariant(self);
        }
        let radius: usize = radius as usize;
        SampleWindow {
            min_x: center_x.saturating_sub(radius),
            max_x: end_of_window(center_x, radius, self.width),
            min_y: center_y.saturating_sub(radius),
            max_y: end_of_window(center_y, radius, self.height),
        }
    }

    /// The colors of the pixels of a row of a window, from its start up to a column.
    pub open spec fn row_colors(&self, min_x: int, end: int, y: int) -> Seq<Rgb8> {
        Seq::new(
            if end > min_x {
                (end - min_x) as nat
            } else {
                0
            },
            |i: int| self.color(min_x + i, y),
        )
    }

    /// The colors of the first `n` rows of a window, in reading order.
    pub open spec fn window_colors(&self, window: SampleWindow, n: nat) -> Seq<Rgb8>
        decreases n,
    {
        if n == 0 {
            Seq::empty()
        } else {
            self.window_colors(window, (n - 1) as nat) + self.row_colors(
                window.min_x as int,
                window.max_x + 1,
                window.min_y + n - 1,
            )
        }
    }

    /// Reads the pixels within a radius of a place, in reading order. The mean
    /// of their linear-light values is the sample of the place.
    pub fn samples(&self, center_x: usize, center_y: usize, radius: u32) -> (r: Vec<Rgb8>)
        ensures
            ({
                let window = SampleWindow {
                    min_x: window_start(center_x as int, radius as int) as usize,
                    max_x: window_end(
                        center_x as int,
                        radius as int,
                        self.columns() as int,
                    ) as usize,
                    min_y: window_start(center_y as int, radius as int) as usize,
                    max_y: window_end(center_y as int, radius as int, self.rows() as int) as usize,
                };
                r@ == self.window_colors(
                    window,
                    if window.max_y < window.min_y {
                        0
                    } else {
                        (window.max_y + 1 - window.min_y) as nat
                    },
                )
            }),
    {
        let window: SampleWindow = self.window(center_x, center_y, radius);
        let mut colors: Vec<Rgb8> = Vec::new();
        if window.max_y < window.min_y {
            return colors;
        }
        let rows: usize = window.max_y - window.min_y + 1;
        let mut row: usize = 0;
        while row < rows
            invariant
                row <= rows,
                rows == window.max_y - window.min_y + 1,
                window.min_y <= window.max_y < self.rows(),
                window.max_x < self.columns(),
                colors@ == self.window_colors(window, row as nat),
            decreases rows - row,
        {
            let y: usize = window.min_y + row;
            let ghost before = colors@;
            let mut x: usize = window.min_x;
            assert(colors@ =~= before + self.row_colors(window.min_x as int, x as int, y as int));
            while x <= window.max_x
                invariant
                    window.min_x <= x,
                    x <= window.max_x + 1 || x == window.min_x,
                    y < self.rows(),
                    window.max_x < self.columns(),
                    colors@ == before + self.row_colors(window.min_x as int, x as int, y as int),
                decreases window.max_x + 1 - x,
            {
                colors.push(self.pixel(x, y));
                assert(colors@ =~= before + self.row_colors(
                    window.min_x as int,
                    x + 1,
                    y as int,
                ));
                x += 1;
            }
            assert(self.row_colors(window.min_x as int, x as int, y as int) =~= self.row_colors(
                window.min_x as int,
                window.max_x + 1,
                y as int,
            ));
            row += 1;
        }
        colors
    }
}

fn end_of_window(center: usize, radius: usize, size: usize) -> (r: usize)
    requires
        size > 0,
    ensures
        r == window_end(center as int, radius as int, size as int),
        r < size,
{
    let end: usize = center.saturating_add(radius);
    if end < size - 1 {
        end
    } else {
        size - 1
    }
}

/// Every pixel of a frame lies within its bytes.
pub proof fn law_pixel_lies_within_the_bytes(view: FrameView<'_>, x: int, y: int)
    requires
        view.sufficient(),
        0 <= x < view.columns(),
        0 <= y < view.rows(),
    ensures
        0 <= view.pixel_offset(x, y),
        view.pixel_offset(x, y) + pixel_size(view.layout()) <= view.bytes().len(),
{
    let row = if view.row_step() < 0 {
        view.rows() - 1 - y
    } else {
        y
    };
    let step = stride_size(view.row_step()) as int;
    let size = pixel_size(view.layout()) as int;
    let rows = view.rows() as int;
    let columns = view.columns() as int;
    assert(0 <= row * step <= (rows - 1) * step) by (nonlinear_arith)
        requires
            0 <= row <= rows - 1,
            0 <= step,
    ;
    assert(0 <= x * size && x * size + size <= columns * size) by (nonlinear_arith)
        requires
            0 <= x,
            x + 1 <= columns,
            0 <= size,
    ;
}

/// A window around a place inside the image is not empty: it holds the place.
pub proof fn law_window_holds_its_center(center: int, radius: int, size: int)
    requires
        0 <= center < size,
        0 <= radius,
    ensures
        0 <= window_start(center, radius) <= center <= window_end(center, radius, size) < size,
{
}

} // verus!
