//! Opening a stream: the order of its steps, and what is undone when one fails.
use crate::hue::area::{check_openable, ActivationGuard, Cleanup};
use crate::hue::area;
use crate::hue::bridge::HueError;
use crate::hue::light::{
    EntertainmentConfiguration, EntertainmentConfigurationView, LightSnapshot, LightSnapshotView,
};
use vstd::prelude::*;

verus! {

/// What has happened about opening a stream.
#[derive(Debug)]
pub enum OpenEvent {
    /// The area was read.
    AreaRead(EntertainmentConfiguration),
    /// The states of its lights were taken.
    SnapshotTaken(LightSnapshot),
    /// The area was started.
    Started,
    /// The stream was connected.
    Connected,
    /// What was asked for last failed.
    Failed(HueError),
}

/// The mathematical value of [`OpenEvent`].
#[verifier::ext_equal]
pub enum OpenEventView {
    AreaRead(EntertainmentConfigurationView),
    SnapshotTaken(LightSnapshotView),
    Started,
    Connected,
    Failed(Seq<char>),
}

impl DeepView for OpenEvent {
    type V = OpenEventView;

    open spec fn deep_view(&self) -> OpenEventView {
        match self {
            OpenEvent::AreaRead(area) => OpenEventView::AreaRead(area.deep_view()),
            OpenEvent::SnapshotTaken(snapshot) => OpenEventView::SnapshotTaken(
                snapshot.deep_view(),
            ),
            OpenEvent::Started => OpenEventView::Started,
            OpenEvent::Connected => OpenEventView::Connected,
            OpenEvent::Failed(error) => OpenEventView::Failed(error@),
        }
    }
}

/// What is done next about opening a stream.
#[derive(Debug)]
pub enum OpenStep {
    /// Take the states of the lights of the area.
    TakeSnapshot,
    /// Start the area.
    Start,
    /// Connect the stream.
    Connect,
    /// Hand the stream over, with the lights to put back at its end.
    Deliver(Option<LightSnapshot>),
    /// Refuse; nothing was sent that would have to be undone.
    Refuse(HueError),
    /// Clean up, and refuse.
    CleanUp { cleanup: Cleanup, error: HueError },
    /// Nothing: what happened was not asked for.
    Wait,
}

/// The mathematical value of [`OpenStep`].
#[verifier::ext_equal]
pub enum OpenStepView {
    TakeSnapshot,
    Start,
    Connect,
    Deliver(Option<LightSnapshotView>),
    Refuse(Seq<char>),
    CleanUp { snapshot: Option<LightSnapshotView>, error: Seq<char> },
    Wait,
}

impl DeepView for OpenStep {
    type V = OpenStepView;

    open spec fn deep_view(&self) -> OpenStepView {
        match self {
            OpenStep::TakeSnapshot => OpenStepView::TakeSnapshot,
            OpenStep::Start => OpenStepView::Start,
            OpenStep::Connect => OpenStepView::Connect,
            OpenStep::Deliver(snapshot) => OpenStepView::Deliver(snapshot.deep_view()),
            OpenStep::Refuse(error) => OpenStepView::Refuse(error@),
            OpenStep::CleanUp { cleanup, error } => OpenStepView::CleanUp {
                snapshot: cleanup.snapshot.deep_view(),
                error: error@,
            },
            OpenStep::Wait => OpenStepView::Wait,
        }
    }
}

#[derive(Debug)]
enum Phase {
    ReadingArea,
    TakingSnapshot,
    Starting(ActivationGuard),
    Connecting(ActivationGuard),
    Over,
}

/// How far the opening of a stream is.
#[verifier::ext_equal]
pub enum OpenPhase {
    ReadingArea,
    TakingSnapshot,
    /// With the lights to put back.
    Starting(LightSnapshotView),
    /// With the lights to put back.
    Connecting(LightSnapshotView),
    Over,
}

/// The opening of a stream.
#[derive(Debug)]
pub struct Opening {
    phase: Phase,
    restore_on_stop: bool,
}

/// The mathematical value of [`Opening`].
#[verifier::ext_equal]
pub struct OpeningView {
    pub phase: OpenPhase,
    /// Whether lights are put back at the end of the stream.
    pub restore_on_stop: bool,
}

/// The opening of a stream whose area is not read yet.
pub open spec fn begun(restore_on_stop: bool) -> OpeningView {
    OpeningView { phase: OpenPhase::ReadingArea, restore_on_stop }
}

/// The opening of a stream after an event, and what is done next.
pub open spec fn advanced(opening: OpeningView, event: OpenEventView) -> (
    OpeningView,
    OpenStepView,
) {
    let over = OpeningView { phase: OpenPhase::Over, ..opening };
    match (opening.phase, event) {
        (OpenPhase::ReadingArea, OpenEventView::AreaRead(area)) => match area::open_problem(area) {
            None => (
                OpeningView { phase: OpenPhase::TakingSnapshot, ..opening },
                OpenStepView::TakeSnapshot,
            ),
            Some(error) => (over, OpenStepView::Refuse(error)),
        },
        (OpenPhase::TakingSnapshot, OpenEventView::SnapshotTaken(snapshot)) => (
            OpeningView { phase: OpenPhase::Starting(snapshot), ..opening },
            OpenStepView::Start,
        ),
        (OpenPhase::Starting(snapshot), OpenEventView::Started) => (
            OpeningView { phase: OpenPhase::Connecting(snapshot), ..opening },
            OpenStepView::Connect,
        ),
        (OpenPhase::Connecting(snapshot), OpenEventView::Connected) => (
            over,
            OpenStepView::Deliver(
                if opening.restore_on_stop {
                    Some(snapshot)
                } else {
                    None
                },
            ),
        ),
        (OpenPhase::ReadingArea, OpenEventView::Failed(error)) => (
            over,
            OpenStepView::Refuse(error),
        ),
        (OpenPhase::TakingSnapshot, OpenEventView::Failed(error)) => (
            over,
            OpenStepView::Refuse(error),
        ),
        (OpenPhase::Starting(snapshot), OpenEventView::Failed(error)) => (
            over,
            OpenStepView::CleanUp { snapshot: Some(snapshot), error },
        ),
        (OpenPhase::Connecting(snapshot), OpenEventView::Failed(error)) => (
            over,
            OpenStepView::CleanUp { snapshot: Some(snapshot), error },
        ),
        _ => (opening, OpenStepView::Wait),
    }
}

/// The lights to put back if an opening is abandoned: those of an area that may have
/// been started.
pub open spec fn left_behind(opening: OpeningView) -> Option<LightSnapshotView> {
    match opening.phase {
        OpenPhase::Starting(snapshot) => Some(snapshot),
        OpenPhase::Connecting(snapshot) => Some(snapshot),
        _ => None,
    }
}

impl Opening {
    /// The mathematical value of the opening.
    pub closed spec fn state(&self) -> OpeningView {
        OpeningView {
            phase: match self.phase {
                Phase::ReadingArea => OpenPhase::ReadingArea,
                Phase::TakingSnapshot => OpenPhase::TakingSnapshot,
                Phase::Starting(guard) => OpenPhase::Starting(guard.snapshot()->Some_0),
                Phase::Connecting(guard) => OpenPhase::Connecting(guard.snapshot()->Some_0),
                Phase::Over => OpenPhase::Over,
            },
            restore_on_stop: self.restore_on_stop,
        }
    }

    #[verifier::type_invariant]
    spec fn guarded(&self) -> bool {
        match self.phase {
            Phase::Starting(guard) => guard.armed() && guard.snapshot() is Some,
            Phase::Connecting(guard) => guard.armed() && guard.snapshot() is Some,
            _ => true,
        }
    }

    /// Begins by reading the area.
    pub fn new(restore_on_stop: bool) -> (r: Self)
        ensures
            r.state() == begun(restore_on_stop),
    {
        Opening { phase: Phase::ReadingArea, restore_on_stop }
    }

    /// Takes an event, and tells what is done next.
    pub fn advance(self, event: OpenEvent) -> (r: (Self, OpenStep))
        ensures
            (r.0.state(), r.1.deep_view()) == advanced(self.state(), event.deep_view()),
    {
        proof {
            use_type_invariant(&self);
        }
        let restore_on_stop: bool = self.restore_on_stop;
        match (self.phase, event) {
            (Phase::ReadingArea, OpenEvent::AreaRead(area)) => match check_openable(&area) {
                Ok(()) => (
                    Opening { phase: Phase::TakingSnapshot, restore_on_stop },
                    OpenStep::TakeSnapshot,
                ),
                Err(error) => (
                    Opening { phase: Phase::Over, restore_on_stop },
                    OpenStep::Refuse(error),
                ),
            },
            (Phase::TakingSnapshot, OpenEvent::SnapshotTaken(snapshot)) => {
                let mut guard: ActivationGuard = ActivationGuard::new(snapshot);
                guard.arm();
                (Opening { phase: Phase::Starting(guard), restore_on_stop }, OpenStep::Start)
            },
            (Phase::Starting(guard), OpenEvent::Started) => (
                Opening { phase: Phase::Connecting(guard), restore_on_stop },
                OpenStep::Connect,
            ),
            (Phase::Connecting(guard), OpenEvent::Connected) => (
                Opening { phase: Phase::Over, restore_on_stop },
                OpenStep::Deliver(guard.disarm(restore_on_stop)),
            ),
            (Phase::ReadingArea, OpenEvent::Failed(error)) => (
                Opening { phase: Phase::Over, restore_on_stop },
                OpenStep::Refuse(error),
            ),
            (Phase::TakingSnapshot, OpenEvent::Failed(error)) => (
                Opening { phase: Phase::Over, restore_on_stop },
                OpenStep::Refuse(error),
            ),
            (Phase::Starting(guard), OpenEvent::Failed(error)) => (
                Opening { phase: Phase::Over, restore_on_stop },
                clean_up(guard, error),
            ),
            (Phase::Connecting(guard), OpenEvent::Failed(error)) => (
                Opening { phase: Phase::Over, restore_on_stop },
                clean_up(guard, error),
            ),
            (phase, _) => (Opening { phase, restore_on_stop }, OpenStep::Wait),
        }
    }

    /// What is left to do if the opening is abandoned now.
    pub fn abandon(self) -> (r: Option<Cleanup>)
        ensures
            r is Some <==> left_behind(self.state()) is Some,
            r matches Some(cleanup) ==> cleanup.snapshot.deep_view() == left_behind(self.state()),
    {
        proof {
            use_type_invariant(&self);
        }
        match self.phase {
            Phase::Starting(mut guard) => guard.give_up(),
            Phase::Connecting(mut guard) => guard.give_up(),
            _ => None,
        }
    }
}

fn clean_up(guard: ActivationGuard, error: HueError) -> (r: OpenStep)
    requires
        guard.armed(),
    ensures
        r.deep_view() == (OpenStepView::CleanUp { snapshot: guard.snapshot(), error: error@ }),
{
    let mut guard: ActivationGuard = guard;
    match guard.give_up() {
        Some(cleanup) => OpenStep::CleanUp { cleanup, error },
        None => OpenStep::Refuse(error),
    }
}

/// The opening of a stream after several events.
pub open spec fn advanced_by(restore_on_stop: bool, events: Seq<OpenEventView>) -> OpeningView
    decreases events.len(),
{
    if events.len() == 0 {
        begun(restore_on_stop)
    } else {
        advanced(advanced_by(restore_on_stop, events.drop_last()), events.last()).0
    }
}

/// Whether an area was read among events that a stream can be opened to.
pub open spec fn accepted(events: Seq<OpenEventView>) -> bool {
    exists|i: int|
        0 <= i < events.len() && (#[trigger] events[i]) is AreaRead && area::open_problem(
            events[i]->AreaRead_0,
        ) is None
}

proof fn lemma_only_accepted_areas_go_on(restore_on_stop: bool, events: Seq<OpenEventView>)
    ensures
        ({
            let phase = advanced_by(restore_on_stop, events).phase;
            phase is TakingSnapshot || phase is Starting || phase is Connecting ==> accepted(events)
        }),
    decreases events.len(),
{
    if events.len() > 0 {
        let front = events.drop_last();
        lemma_only_accepted_areas_go_on(restore_on_stop, front);
        if accepted(front) {
            let i = choose|i: int|
                0 <= i < front.len() && (#[trigger] front[i]) is AreaRead && area::open_problem(
                    front[i]->AreaRead_0,
                ) is None;
            assert(events[i] == front[i]);
        }
        let last = events[events.len() - 1];
        assert(last == events.last());
    }
}

/// Whatever happens, an area is started, or its lights are read, only after it was
/// found to be neither active nor without channels.
pub proof fn law_only_accepted_areas_are_started(
    restore_on_stop: bool,
    events: Seq<OpenEventView>,
    event: OpenEventView,
)
    requires
        ({
            let step = advanced(advanced_by(restore_on_stop, events), event).1;
            step is Start || step is TakeSnapshot || step is Connect || step is Deliver
        }),
    ensures
        accepted(events.push(event)),
{
    let all = events.push(event);
    assert(all.drop_last() =~= events);
    lemma_only_accepted_areas_go_on(restore_on_stop, all);
    lemma_only_accepted_areas_go_on(restore_on_stop, events);
    if accepted(events) {
        let i = choose|i: int|
            0 <= i < events.len() && (#[trigger] events[i]) is AreaRead && area::open_problem(
                events[i]->AreaRead_0,
            ) is None;
        assert(all[i] == events[i]);
    }
}

/// An area that is refused is not touched: nothing more is done about it.
pub proof fn law_refused_area_is_left_alone(
    opening: OpeningView,
    area: EntertainmentConfigurationView,
    event: OpenEventView,
)
    requires
        opening.phase is ReadingArea,
        area::open_problem(area) is Some,
    ensures
        ({
            let (refused, step) = advanced(opening, OpenEventView::AreaRead(area));
            &&& step == OpenStepView::Refuse(area::open_problem(area)->Some_0)
            &&& advanced(refused, event) == (refused, OpenStepView::Wait)
            &&& left_behind(refused) is None
        }),
{
}

/// Once an area may have been started, an opening ends with a stream or with the
/// lights of the area to put back.
pub proof fn law_started_area_is_handed_over_or_cleaned_up(
    opening: OpeningView,
    event: OpenEventView,
)
    requires
        left_behind(opening) is Some,
    ensures
        ({
            let (next, step) = advanced(opening, event);
            left_behind(next) == left_behind(opening) || step is Deliver || (step
                matches OpenStepView::CleanUp { snapshot, .. } && snapshot == left_behind(opening))
        }),
{
}

} // verus!
