//! Portable compatibility backend using `grim -t ppm -`.
use crate::capture::frame::{CaptureError, CaptureErrorView, CaptureState, CaptureStateView, OwnedFrame};
use crate::capture::ppm::parse_ppm;
use crate::capture::ppm;
use crate::encoding;
use crate::text;
use vstd::prelude::*;

verus! {

/// The shortest time between two captures, in nanoseconds, where none is set.
pub const DEFAULT_INTERVAL_NANOS: u64 = 16_000_000;

/// A capture session that runs grim for each frame. Times are nanoseconds of a
/// clock that the caller reads.
#[derive(Debug)]
pub struct GrimCapture {
    output: Option<String>,
    minimum_interval: u64,
    last_capture: Option<u64>,
    state: CaptureState,
}

/// The mathematical value of [`GrimCapture`].
#[verifier::ext_equal]
pub struct GrimCaptureView {
    pub output: Option<Seq<char>>,
    pub minimum_interval: u64,
    pub last_capture: Option<u64>,
    pub state: CaptureStateView,
}

impl DeepView for GrimCapture {
    type V = GrimCaptureView;

    closed spec fn deep_view(&self) -> GrimCaptureView {
        GrimCaptureView {
            output: self.output.deep_view(),
            minimum_interval: self.minimum_interval,
            last_capture: self.last_capture,
            state: self.state.deep_view(),
        }
    }
}

/// The arguments that grim is run with.
pub open spec fn grim_arguments(output: Option<Seq<char>>) -> Seq<Seq<char>> {
    match output {
        Some(name) => seq!["-t"@, "ppm"@, "-o"@, name, "-"@],
        None => seq!["-t"@, "ppm"@, "-"@],
    }
}

impl GrimCapture {
    /// A session for an output, or for all of them.
    pub fn new(output: Option<String>) -> (r: Self)
        ensures
            r.deep_view() == (GrimCaptureView {
                output: output.deep_view(),
                minimum_interval: DEFAULT_INTERVAL_NANOS,
                last_capture: None,
                state: CaptureStateView::Idle,
            }),
    {
        GrimCapture {
            output,
            minimum_interval: DEFAULT_INTERVAL_NANOS,
            last_capture: None,
            state: CaptureState::Idle,
        }
    }

    /// The same session with another shortest time between two captures.
    pub fn with_minimum_interval(self, interval: u64) -> (r: Self)
        ensures
            r.deep_view() == (GrimCaptureView { minimum_interval: interval, ..self.deep_view() }),
    {
        GrimCapture { minimum_interval: interval, ..self }
    }

    /// The state of the session.
    pub fn state(&self) -> (r: CaptureState)
        ensures
            r.deep_view() == self.deep_view().state,
    {
        self.state.clone()
    }

    /// When the next capture may run; a session that was stopped captures no more.
    pub fn next_capture(&self) -> (r: Result<Option<u64>, CaptureError>)
        ensures
            r is Err <==> self.deep_view().state is Stopped || self.deep_view().state is Stopping,
            r matches Err(error) ==> error == CaptureError::Closed,
            r matches Ok(due) ==> due == match self.deep_view().last_capture {
                Some(last) => Some(
                    if last + self.deep_view().minimum_interval > u64::MAX {
                        u64::MAX
                    } else {
                        (last + self.deep_view().minimum_interval) as u64
                    },
                ),
                None => None,
            },
    {
        match &self.state {
            CaptureState::Stopped | CaptureState::Stopping => return Err(CaptureError::Closed),
            _ => {},
        }
        match self.last_capture {
            Some(last) => Ok(Some(last.saturating_add(self.minimum_interval))),
            None => Ok(None),
        }
    }

    /// The arguments that grim is run with.
    pub fn arguments(&self) -> (r: Vec<String>)
        ensures
            r.deep_view() == grim_arguments(self.deep_view().output),
    {
        let mut r: Vec<String> = Vec::new();
        r.push("-t".to_owned());
        r.push("ppm".to_owned());
        if let Some(name) = &self.output {
            r.push("-o".to_owned());
            r.push(name.clone());
        }
        r.push("-".to_owned());
        assert(r.deep_view() =~= grim_arguments(self.deep_view().output));
        r
    }

    /// Takes what a run of grim came to. A run that failed changes nothing; any
    /// other counts as a capture, also where its image cannot be read.
    pub fn complete(&mut self, run: Result<Vec<u8>, CaptureError>, now: u64) -> (r: Result<
        OwnedFrame,
        CaptureError,
    >)
        ensures
            run matches Err(error) ==> r == Err::<OwnedFrame, CaptureError>(error)
                && final(self).deep_view() == old(self).deep_view(),
            run matches Ok(image) ==> {
                &&& final(self).deep_view() == (GrimCaptureView {
                    last_capture: Some(now),
                    state: CaptureStateView::Streaming,
                    ..old(self).deep_view()
                })
                &&& r is Ok <==> ppm::ppm_image(image@) is Ok
                &&& r matches Ok(captured) ==> {
                    let (width, height, start) = ppm::ppm_image(image@)->Ok_0;
                    captured.deep_view() == ppm::ppm_frame(image@, width, height, start)
                }
                &&& r matches Err(error) ==> error.deep_view() == CaptureErrorView::InvalidFrame(
                    ppm::ppm_image(image@)->Err_0,
                )
            },
    {
        match run {
            Err(error) => Err(error),
            Ok(image) => {
                self.last_capture = Some(now);
                self.state = CaptureState::Streaming;
                parse_ppm(image.as_slice())
            },
        }
    }

    /// Stops the session.
    pub fn shutdown(&mut self)
        ensures
            final(self).deep_view() == (GrimCaptureView {
                state: CaptureStateView::Stopped,
                ..old(self).deep_view()
            }),
    {
        self.state = CaptureState::Stopped;
    }
}

/// The error of a run of grim that could not be started.
pub fn grim_not_started(reason: &str) -> (r: CaptureError)
    ensures
        r.deep_view() == CaptureErrorView::Backend("failed to start grim: "@ + reason@),
{
    CaptureError::Backend(text::concat("failed to start grim: ", reason))
}

/// The image of a run of grim, or its complaint without the white space around it.
pub fn grim_output(success: bool, stdout: Vec<u8>, stderr: &[u8]) -> (r: Result<
    Vec<u8>,
    CaptureError,
>)
    ensures
        success ==> r == Ok::<Vec<u8>, CaptureError>(stdout),
        !success ==> r is Err && r->Err_0.deep_view() == CaptureErrorView::Backend(
            "grim failed: "@ + text::trimmed(encoding::lossy_text(stderr@)),
        ),
{
    if !success {
        let complaint: String = encoding::decode_lossy(stderr);
        return Err(
            CaptureError::Backend(text::concat("grim failed: ", text::trim(complaint.as_str()))),
        );
    }
    Ok(stdout)
}

} // verus!
