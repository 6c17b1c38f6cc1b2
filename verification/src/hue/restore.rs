//! Putting lights back, one after another.
use crate::hue::bridge::HueError;
use crate::hue::control::{ControlRequest, ControlRequestView};
use crate::hue::control;
use crate::hue::light::{restore_result, LightRestore, LightRestoreView, LightSnapshot};
use crate::text;
use vstd::prelude::*;

verus! {

/// The lights of a snapshot while they are put back.
#[derive(Debug)]
pub struct Restoration {
    lights: Vec<LightRestore>,
    tried: usize,
    failures: usize,
}

/// The mathematical value of [`Restoration`].
#[verifier::ext_equal]
pub struct RestorationView {
    pub lights: Seq<LightRestoreView>,
    /// How many lights were tried.
    pub tried: nat,
    /// How many of them could not be put back.
    pub failures: nat,
}

/// A restoration in which no light was tried yet.
pub open spec fn begun(lights: Seq<LightRestoreView>) -> RestorationView {
    RestorationView { lights, tried: 0, failures: 0 }
}

/// A restoration once the light that is next was tried.
pub open spec fn recorded(restoration: RestorationView, restored: bool) -> RestorationView {
    if restoration.tried < restoration.lights.len() {
        RestorationView {
            tried: restoration.tried + 1,
            failures: restoration.failures + if restored {
                0nat
            } else {
                1nat
            },
            ..restoration
        }
    } else {
        restoration
    }
}

/// The request that is made next: it puts the first light back that was not tried.
pub open spec fn next_request(restoration: RestorationView, key: Seq<char>) -> Option<
    ControlRequestView,
> {
    if restoration.tried < restoration.lights.len() {
        Some(control::restore_view(restoration.lights[restoration.tried as int], key))
    } else {
        None
    }
}

impl Restoration {
    /// The mathematical value of the restoration.
    pub closed spec fn state(&self) -> RestorationView {
        RestorationView {
            lights: self.lights.deep_view(),
            tried: self.tried as nat,
            failures: self.failures as nat,
        }
    }

    #[verifier::type_invariant]
    spec fn counted(&self) -> bool {
        self.failures <= self.tried <= self.lights@.len()
    }

    /// Begins with the first light of a snapshot.
    pub fn new(snapshot: LightSnapshot) -> (r: Self)
        ensures
            r.state() == begun(snapshot.deep_view().lights),
    {
        Restoration { lights: snapshot.lights, tried: 0, failures: 0 }
    }

    /// The request that is made next, if a light is left.
    pub fn next(&self, key: &str) -> (r: Option<ControlRequest>)
        ensures
            r.deep_view() == next_request(self.state(), key@),
    {
        if self.tried < self.lights.len() {
            assert(self.lights.deep_view()[self.tried as int]
                == self.lights@[self.tried as int].deep_view());
            Some(ControlRequest::restore_light(self.lights[self.tried].clone(), key))
        } else {
            None
        }
    }

    /// Notes whether the light that was next is put back, and goes on to the next.
    pub fn record(self, restored: bool) -> (r: Self)
        ensures
            r.state() == recorded(self.state(), restored),
    {
        proof {
            use_type_invariant(&self);
        }
        if self.tried < self.lights.len() {
            let failures: usize = if restored {
                self.failures
            } else {
                self.failures + 1
            };
            Restoration { lights: self.lights, tried: self.tried + 1, failures }
        } else {
            self
        }
    }

    /// What putting the lights back came to so far.
    pub fn result(&self) -> (r: Result<(), HueError>)
        ensures
            r is Ok <==> self.state().failures == 0,
            r matches Err(error) ==> error@ == "could not restore "@ + text::decimal_text(
                self.state().failures,
            ) + " Hue light(s)"@,
    {
        restore_result(self.failures)
    }
}

/// A restoration after several lights were tried.
pub open spec fn recorded_all(
    lights: Seq<LightRestoreView>,
    outcomes: Seq<bool>,
) -> RestorationView
    decreases outcomes.len(),
{
    if outcomes.len() == 0 {
        begun(lights)
    } else {
        recorded(recorded_all(lights, outcomes.drop_last()), outcomes.last())
    }
}

/// How many outcomes are failures.
pub open spec fn failed(outcomes: Seq<bool>) -> nat
    decreases outcomes.len(),
{
    if outcomes.len() == 0 {
        0
    } else {
        failed(outcomes.drop_last()) + if outcomes.last() {
            0nat
        } else {
            1nat
        }
    }
}

/// Every light is tried in its order, whichever of the lights before it failed, and
/// the failures are counted.
pub proof fn law_every_light_is_tried(
    lights: Seq<LightRestoreView>,
    outcomes: Seq<bool>,
    key: Seq<char>,
)
    requires
        outcomes.len() <= lights.len(),
    ensures
        ({
            let restoration = recorded_all(lights, outcomes);
            &&& restoration == (RestorationView {
                lights,
                tried: outcomes.len(),
                failures: failed(outcomes),
            })
            &&& outcomes.len() < lights.len() ==> next_request(restoration, key) == Some(
                control::restore_view(lights[outcomes.len() as int], key),
            )
            &&& outcomes.len() == lights.len() ==> next_request(restoration, key) is None
        }),
    decreases outcomes.len(),
{
    if outcomes.len() > 0 {
        law_every_light_is_tried(lights, outcomes.drop_last(), key);
    }
}

} // verus!
