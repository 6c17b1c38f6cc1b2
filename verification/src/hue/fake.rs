//! Stand-ins for a bridge and its keys that keep everything in memory.
use crate::hue::bridge::{hue_error, HueError};
use crate::hue::control::{ControlRequest, ControlRequestView, ControlResponse};
use crate::hue::credentials::{BridgeCredentials, BridgeCredentialsView};
use crate::text;
use vstd::prelude::*;

verus! {

/// A bridge that answers requests with prepared responses, in their order.
pub struct ScriptedControlTransport<B> {
    responses: Vec<Result<ControlResponse<B>, String>>,
    requests: Vec<ControlRequest>,
}

impl<B> ScriptedControlTransport<B> {
    /// The responses that are left.
    pub closed spec fn script(&self) -> Seq<Result<ControlResponse<B>, String>> {
        self.responses@
    }

    /// The requests that were made.
    pub closed spec fn made(&self) -> Seq<ControlRequestView> {
        self.requests.deep_view()
    }

    /// A bridge without responses.
    pub fn new() -> (r: Self)
        ensures
            r.script() == Seq::<Result<ControlResponse<B>, String>>::empty(),
            r.made() == Seq::<ControlRequestView>::empty(),
    {
        let r: Self = ScriptedControlTransport { responses: Vec::new(), requests: Vec::new() };
        assert(r.made() =~= Seq::<ControlRequestView>::empty());
        r
    }

    /// Prepares a response.
    pub fn push_response(&mut self, response: ControlResponse<B>)
        ensures
            final(self).script() == old(self).script().push(Ok(response)),
            final(self).made() == old(self).made(),
    {
        self.responses.push(Ok(response));
    }

    /// Prepares an error.
    pub fn push_error(&mut self, message: String)
        ensures
            final(self).script() == old(self).script().push(Err(message)),
            final(self).made() == old(self).made(),
    {
        self.responses.push(Err(message));
    }

    /// The requests that were made.
    pub fn requests(&self) -> (r: Vec<ControlRequest>)
        ensures
            r.deep_view() == self.made(),
    {
        let r: Vec<ControlRequest> = self.requests.clone();
        assert(r.deep_view() =~= self.made());
        r
    }

    /// Answers a request with the next response.
    pub fn execute(&mut self, request: ControlRequest) -> (r: Result<ControlResponse<B>, HueError>)
        ensures
            final(self).made() == old(self).made().push(request.deep_view()),
            old(self).script().len() == 0 ==> r is Err && r->Err_0@
                == "fake control response queue is empty"@ && final(self).script() == old(
                self,
            ).script(),
            old(self).script().len() > 0 ==> {
                &&& final(self).script() == old(self).script().drop_first()
                &&& match old(self).script()[0] {
                    Ok(response) => r == Ok::<ControlResponse<B>, HueError>(response),
                    Err(message) => r is Err && r->Err_0@ == message@,
                }
            },
    {
        let ghost before = self.requests.deep_view();
        let ghost view = request.deep_view();
        self.requests.push(request);
        assert(self.requests.deep_view() =~= before.push(view));
        if self.responses.len() == 0 {
            return Err(hue_error("fake control response queue is empty"));
        }
        let ghost script = self.responses@;
        let next: Result<ControlResponse<B>, String> = self.responses.remove(0);
        assert(self.responses@ =~= script.drop_first());
        match next {
            Ok(response) => Ok(response),
            Err(message) => Err(HueError::new(message)),
        }
    }
}

impl<B> Default for ScriptedControlTransport<B> {
    fn default() -> (r: Self)
        ensures
            r.script() == Seq::<Result<ControlResponse<B>, String>>::empty(),
            r.made() == Seq::<ControlRequestView>::empty(),
    {
        ScriptedControlTransport::new()
    }
}

struct StoredCredentials {
    bridge_id: String,
    credentials: BridgeCredentials,
}

/// A store of keys in memory, at most one set for each bridge.
pub struct MemoryCredentialStore {
    values: Vec<StoredCredentials>,
}

impl MemoryCredentialStore {
    #[verifier::type_invariant]
    spec fn unique(&self) -> bool {
        forall|i: int, j: int|
            0 <= i < j < self.values@.len() ==> (#[trigger] self.values@[i]).bridge_id@ != (
            #[trigger] self.values@[j]).bridge_id@
    }

    /// The keys that are stored for a bridge.
    pub closed spec fn stored(&self, bridge_id: Seq<char>) -> Option<BridgeCredentialsView> {
        if exists|i: int|
            0 <= i < self.values@.len() && (#[trigger] self.values@[i]).bridge_id@ == bridge_id {
            let i = choose|i: int|
                0 <= i < self.values@.len() && (#[trigger] self.values@[i]).bridge_id@ == bridge_id;
            Some(self.values@[i].credentials.deep_view())
        } else {
            None
        }
    }

    /// An empty store.
    pub fn new() -> (r: Self)
        ensures
            forall|id: Seq<char>| (#[trigger] r.stored(id)) is None,
    {
        MemoryCredentialStore { values: Vec::new() }
    }

    fn find(&self, bridge_id: &str) -> (r: usize)
        ensures
            r <= self.values@.len(),
            r < self.values@.len() ==> self.values@[r as int].bridge_id@ == bridge_id@,
            r == self.values@.len() ==> forall|i: int|
                0 <= i < self.values@.len() ==> (#[trigger] self.values@[i]).bridge_id@
                    != bridge_id@,
    {
        let mut i: usize = 0;
        while i < self.values.len()
            invariant
                i <= self.values@.len(),
                forall|j: int|
                    0 <= j < i ==> (#[trigger] self.values@[j]).bridge_id@ != bridge_id@,
            decreases self.values@.len() - i,
        {
            if text::str_eq(self.values[i].bridge_id.as_str(), bridge_id) {
                return i;
            }
            i += 1;
        }
        i
    }

    /// The keys of a bridge.
    pub fn load(&self, bridge_id: &str) -> (r: Result<BridgeCredentials, HueError>)
        ensures
            r is Ok <==> self.stored(bridge_id@) is Some,
            r matches Ok(credentials) ==> Some(credentials.deep_view()) == self.stored(bridge_id@),
            r matches Err(error) ==> error@ == "fake credentials not found"@,
    {
        proof {
            use_type_invariant(self);
        }
        let i: usize = self.find(bridge_id);
        if i == self.values.len() {
            return Err(hue_error("fake credentials not found"));
        }
        Ok(self.values[i].credentials.clone())
    }

    /// Stores the keys of a bridge in place of earlier ones.
    pub fn store(&mut self, bridge_id: &str, credentials: &BridgeCredentials)
        ensures
            forall|id: Seq<char>| #[trigger]
                final(self).stored(id) == if id == bridge_id@ {
                    Some(credentials.deep_view())
                } else {
                    old(self).stored(id)
                },
    {
        self.forget(bridge_id);
        proof {
            use_type_invariant(&*self);
        }
        let ghost before = *self;
        let mut values: Vec<StoredCredentials> = Vec::new();
        std::mem::swap(&mut values, &mut self.values);
        let ghost old_values = values@;
        values.push(
            StoredCredentials {
                bridge_id: bridge_id.to_owned(),
                credentials: credentials.clone(),
            },
        );
        let ghost new_values = values@;
        proof {
            assert(before.stored(bridge_id@) is None);
            assert forall|i: int| 0 <= i < old_values.len() implies (
            #[trigger] old_values[i]).bridge_id@ != bridge_id@ by {
                assert(before.values@[i].bridge_id@ == old_values[i].bridge_id@);
            }
            assert forall|i: int, j: int| 0 <= i < j < new_values.len() implies (
            #[trigger] new_values[i]).bridge_id@ != (#[trigger] new_values[j]).bridge_id@ by {
                assert(new_values[i] == old_values[i]);
                if j < old_values.len() {
                    assert(new_values[j] == old_values[j]);
                }
            }
        }
        self.values = values;
        proof {
            assert forall|id: Seq<char>| #[trigger]
                self.stored(id) == if id == bridge_id@ {
                    Some(credentials.deep_view())
                } else {
                    before.stored(id)
                } by {
                if id == bridge_id@ {
                    assert(self.values@[old_values.len() as int].bridge_id@ == id);
                } else {
                    assert forall|i: int| 0 <= i < old_values.len() implies self.values@[i]
                        == before.values@[i] by {}
                    if before.stored(id) is Some {
                        let i = choose|i: int|
                            0 <= i < before.values@.len() && (
                            #[trigger] before.values@[i]).bridge_id@ == id;
                        assert(self.values@[i].bridge_id@ == id);
                    }
                }
            }
        }
    }

    /// Forgets the keys of a bridge.
    pub fn forget(&mut self, bridge_id: &str)
        ensures
            forall|id: Seq<char>| #[trigger]
                final(self).stored(id) == if id == bridge_id@ {
                    None
                } else {
                    old(self).stored(id)
                },
    {
        proof {
            use_type_invariant(&*self);
        }
        let ghost before = *self;
        let i: usize = self.find(bridge_id);
        if i < self.values.len() {
            let mut values: Vec<StoredCredentials> = Vec::new();
            std::mem::swap(&mut values, &mut self.values);
            let ghost old_values = values@;
            let _ = values.remove(i);
            let ghost new_values = values@;
            proof {
                assert(new_values =~= old_values.remove(i as int));
                assert forall|a: int, b: int| 0 <= a < b < new_values.len() implies (
                #[trigger] new_values[a]).bridge_id@ != (#[trigger] new_values[b]).bridge_id@ by {
                    let x = if a < i {
                        a
                    } else {
                        a + 1
                    };
                    let y = if b < i {
                        b
                    } else {
                        b + 1
                    };
                    assert(new_values[a] == old_values[x] && new_values[b] == old_values[y]);
                    assert(before.values@[x].bridge_id@ != before.values@[y].bridge_id@);
                }
            }
            self.values = values;
            proof {
                assert forall|id: Seq<char>| #[trigger]
                    self.stored(id) == if id == bridge_id@ {
                        None
                    } else {
                        before.stored(id)
                    } by {
                    assert forall|a: int| 0 <= a < new_values.len() implies self.values@[a]
                        == before.values@[if a < i {
                        a
                    } else {
                        a + 1
                    }] by {}
                    if id != bridge_id@ && before.stored(id) is Some {
                        let x = choose|x: int|
                            0 <= x < before.values@.len() && (
                            #[trigger] before.values@[x]).bridge_id@ == id;
                        let a = if x < i {
                            x
                        } else {
                            x - 1
                        };
                        assert(self.values@[a] == before.values@[x]);
                    }
                }
            }
        }
    }
}

impl Default for MemoryCredentialStore {
    fn default() -> (r: Self)
        ensures
            forall|id: Seq<char>| (#[trigger] r.stored(id)) is None,
    {
        MemoryCredentialStore::new()
    }
}

/// A stream that keeps what is sent through it.
#[derive(Debug)]
pub struct RecordingStreamConnector {
    bytes: Vec<u8>,
}

impl RecordingStreamConnector {
    /// What was sent.
    pub closed spec fn sent(&self) -> Seq<u8> {
        self.bytes@
    }

    /// A stream through which nothing was sent.
    pub fn new() -> (r: Self)
        ensures
            r.sent() == Seq::<u8>::empty(),
    {
        RecordingStreamConnector { bytes: Vec::new() }
    }

    /// Sends bytes.
    pub fn write(&mut self, buffer: &[u8]) -> (r: usize)
        ensures
            final(self).sent() == old(self).sent() + buffer@,
            r == buffer@.len(),
    {
        let ghost before = self.bytes@;
        self.bytes.extend_from_slice(buffer);
        assert(self.bytes@ =~= before + buffer@);
        buffer.len()
    }

    /// What was sent.
    pub fn bytes(&self) -> (r: Vec<u8>)
        ensures
            r@ == self.sent(),
    {
        vstd::slice::slice_to_vec(self.bytes.as_slice())
    }
}

impl Default for RecordingStreamConnector {
    fn default() -> (r: Self)
        ensures
            r.sent() == Seq::<u8>::empty(),
    {
        RecordingStreamConnector::new()
    }
}

} // verus!
