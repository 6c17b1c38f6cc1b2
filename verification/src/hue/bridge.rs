//! Bridges: their identifiers and addresses, and how they are discovered.
use crate::encoding;
use crate::text;
use vstd::prelude::*;

verus! {

/// Why something about a bridge failed, in words.
#[derive(Debug, PartialEq, Eq)]
pub struct HueError {
    message: String,
}

impl View for HueError {
    type V = Seq<char>;

    closed spec fn view(&self) -> Seq<char> {
        self.message@
    }
}

impl HueError {
    /// An error with this message.
    pub fn new(message: String) -> (r: Self)
        ensures
            r@ == message@,
    {
        HueError { message }
    }

    /// Describes the error.
    pub fn message(&self) -> (r: &str)
        ensures
            r@ == self@,
    {
        self.message.as_str()
    }
}

pub(crate) fn hue_error(message: &str) -> (r: HueError)
    ensures
        r@ == message@,
{
    HueError::new(message.to_owned())
}

impl Clone for HueError {
    fn clone(&self) -> (r: Self)
        ensures
            r@ == self@,
    {
        HueError { message: self.message.clone() }
    }
}

/// An Internet address: four bytes, or eight groups of sixteen bits.
#[derive(Clone, Copy, Debug, PartialEq, Eq)]
pub enum IpAddress {
    V4([u8; 4]),
    V6([u16; 8]),
}

/// Whether an address is all zeros.
pub open spec fn unspecified(address: IpAddress) -> bool {
    match address {
        IpAddress::V4(a) => a@ == seq![0u8, 0u8, 0u8, 0u8],
        IpAddress::V6(a) => a@ == seq![0u16, 0u16, 0u16, 0u16, 0u16, 0u16, 0u16, 0u16],
    }
}

/// Whether an address stands for a group of receivers.
pub open spec fn multicast(address: IpAddress) -> bool {
    match address {
        IpAddress::V4(a) => 224 <= a[0] <= 239,
        IpAddress::V6(a) => a[0] >= 0xff00,
    }
}

/// Whether an address leads back to the machine itself.
pub open spec fn loopback(address: IpAddress) -> bool {
    match address {
        IpAddress::V4(a) => a[0] == 127,
        IpAddress::V6(a) => a@ == seq![0u16, 0u16, 0u16, 0u16, 0u16, 0u16, 0u16, 1u16],
    }
}

impl IpAddress {
    /// Whether the address is all zeros.
    pub fn is_unspecified(&self) -> (r: bool)
        ensures
            r == unspecified(*self),
    {
        match self {
            IpAddress::V4(a) => {
                let r: bool = a[0] == 0 && a[1] == 0 && a[2] == 0 && a[3] == 0;
                proof {
                    if r {
                        assert(a@ =~= seq![0u8, 0u8, 0u8, 0u8]);
                    } else if a@ == seq![0u8, 0u8, 0u8, 0u8] {
                        assert(a@[0] == 0 && a@[1] == 0 && a@[2] == 0 && a@[3] == 0);
                    }
                }
                r
            },
            IpAddress::V6(a) => groups_are(a, 0),
        }
    }

    /// Whether the address stands for a group of receivers.
    pub fn is_multicast(&self) -> (r: bool)
        ensures
            r == multicast(*self),
    {
        match self {
            IpAddress::V4(a) => 224 <= a[0] && a[0] <= 239,
            IpAddress::V6(a) => a[0] >= 0xff00,
        }
    }

    /// Whether the address leads back to the machine itself.
    pub fn is_loopback(&self) -> (r: bool)
        ensures
            r == loopback(*self),
    {
        match self {
            IpAddress::V4(a) => a[0] == 127,
            IpAddress::V6(a) => groups_are(a, 1),
        }
    }

    /// Whether the address has eight groups.
    pub fn is_ipv6(&self) -> (r: bool)
        ensures
            r == (*self is V6),
    {
        match self {
            IpAddress::V4(_) => false,
            IpAddress::V6(_) => true,
        }
    }
}

fn groups_are(a: &[u16; 8], last: u16) -> (r: bool)
    ensures
        r == (a@ == seq![0u16, 0u16, 0u16, 0u16, 0u16, 0u16, 0u16, last]),
{
    let r: bool = a[0] == 0 && a[1] == 0 && a[2] == 0 && a[3] == 0 && a[4] == 0 && a[5] == 0 && a[6]
        == 0 && a[7] == last;
    let ghost wanted = seq![0u16, 0u16, 0u16, 0u16, 0u16, 0u16, 0u16, last];
    proof {
        if r {
            assert(a@ =~= wanted);
        } else if a@ == wanted {
            assert(a@[0] == 0 && a@[1] == 0 && a@[2] == 0 && a@[3] == 0 && a@[4] == 0 && a@[5] == 0
                && a@[6] == 0 && a@[7] == last);
        }
    }
    r
}

/// Whether a text is the identifier of a bridge: sixteen hexadecimal digits.
pub open spec fn is_bridge_id(id: Seq<char>) -> bool {
    id.len() == 16 && encoding::all_hex(id)
}

/// Reads the identifier of a bridge and puts it in lower case.
pub fn normalize_bridge_id(id: &str) -> (r: Result<String, HueError>)
    ensures
        r is Ok <==> is_bridge_id(id@),
        r matches Ok(normal) ==> normal@ == text::ascii_lower_text(id@),
        r matches Err(error) ==> error@
            == "Hue bridge ID must contain exactly 16 hexadecimal characters"@,
{
    let chars: Vec<char> = text::chars_of(id);
    if chars.len() != 16 {
        return Err(hue_error("Hue bridge ID must contain exactly 16 hexadecimal characters"));
    }
    let mut normal: String = "".to_owned();
    proof {
        reveal_strlit("");
    }
    assert(normal@ =~= text::ascii_lower_text(chars@.take(0)));
    let mut i: usize = 0;
    while i < 16
        invariant
            i <= 16,
            chars@.len() == 16,
            chars@ == id@,
            encoding::all_hex(chars@.take(i as int)),
            normal@ == text::ascii_lower_text(chars@.take(i as int)),
        decreases 16 - i,
    {
        let c: char = chars[i];
        if !(('0' <= c && c <= '9') || ('a' <= c && c <= 'f') || ('A' <= c && c <= 'F')) {
            assert(!encoding::is_hex_char(id@[i as int]));
            return Err(hue_error("Hue bridge ID must contain exactly 16 hexadecimal characters"));
        }
        let ghost before = normal@;
        normal.append(text::lower_hex_digit(c));
        proof {
            let longer = chars@.take(i + 1);
            assert(longer =~= chars@.take(i as int).push(c));
            assert(text::ascii_lower_text(longer) =~= before.push(text::ascii_lower(c)));
            assert(normal@ =~= before.push(text::ascii_lower(c)));
        }
        i += 1;
    }
    assert(chars@.take(16) =~= chars@);
    Ok(normal)
}

/// Reading an identifier that is in lower case already changes nothing.
pub proof fn law_normalizing_is_idempotent(id: Seq<char>)
    requires
        is_bridge_id(id),
    ensures
        is_bridge_id(text::ascii_lower_text(id)),
        text::ascii_lower_text(text::ascii_lower_text(id)) == text::ascii_lower_text(id),
{
    let lower = text::ascii_lower_text(id);
    assert forall|i: int| 0 <= i < lower.len() implies encoding::is_hex_char(#[trigger] lower[i])
        && text::ascii_lower(lower[i]) == lower[i] by {
        assert(encoding::is_hex_char(id[i]));
    }
    assert(text::ascii_lower_text(lower) =~= lower);
}

/// What comparing two bridge identifiers gives.
pub open spec fn identity_problem(expected: Seq<char>, actual: Seq<char>) -> Option<Seq<char>> {
    if !is_bridge_id(expected) || !is_bridge_id(actual) {
        Some("Hue bridge ID must contain exactly 16 hexadecimal characters"@)
    } else if text::ascii_lower_text(expected) != text::ascii_lower_text(actual) {
        Some("Hue bridge identity does not match the configured bridge"@)
    } else {
        None
    }
}

/// Whether a bridge is the expected one; case does not matter.
pub fn validate_bridge_identity(expected: &str, actual: &str) -> (r: Result<(), HueError>)
    ensures
        r is Ok <==> identity_problem(expected@, actual@) is None,
        r matches Err(error) ==> Some(error@) == identity_problem(expected@, actual@),
{
    let expected: String = match normalize_bridge_id(expected) {
        Ok(id) => id,
        Err(error) => return Err(error),
    };
    let actual: String = match normalize_bridge_id(actual) {
        Ok(id) => id,
        Err(error) => return Err(error),
    };
    if !text::str_eq(expected.as_str(), actual.as_str()) {
        return Err(hue_error("Hue bridge identity does not match the configured bridge"));
    }
    Ok(())
}

/// Whether a bridge that reports its identity is the expected one; it has to
/// report at least one, and the first counts.
pub fn check_reported_identity(expected: &str, reported: &Vec<String>) -> (r: Result<(), HueError>)
    ensures
        reported@.len() == 0 ==> r is Err && r->Err_0@ == "Hue bridge identity response is empty"@,
        reported@.len() > 0 ==> {
            &&& r is Ok <==> identity_problem(expected@, reported@[0]@) is None
            &&& r matches Err(error) ==> Some(error@) == identity_problem(expected@, reported@[0]@)
        },
{
    if reported.len() == 0 {
        return Err(hue_error("Hue bridge identity response is empty"));
    }
    validate_bridge_identity(expected, reported[0].as_str())
}

/// A bridge that can be talked to: its identifier is the name that its certificate has to show, its address only where it is found.
#[derive(Debug, PartialEq, Eq)]
pub struct BridgeCandidate {
    pub id: String,
    pub address: IpAddress,
    pub name: String,
}

/// The mathematical value of [`BridgeCandidate`].
#[verifier::ext_equal]
pub struct BridgeCandidateView {
    pub id: Seq<char>,
    pub address: IpAddress,
    pub name: Seq<char>,
}

impl DeepView for BridgeCandidate {
    type V = BridgeCandidateView;

    open spec fn deep_view(&self) -> BridgeCandidateView {
        BridgeCandidateView {
            id: self.id.deep_view(),
            address: self.address,
            name: self.name.deep_view(),
        }
    }
}

impl Clone for BridgeCandidate {
    fn clone(&self) -> (r: Self)
        ensures
            r.deep_view() == self.deep_view(),
    {
        BridgeCandidate {
            id: self.id.clone(),
            address: self.address,
            name: self.name.clone(),
        }
    }
}

/// What stands against a candidate.
pub open spec fn candidate_problem(candidate: BridgeCandidateView) -> Option<Seq<char>> {
    if !is_bridge_id(candidate.id) {
        Some("Hue bridge ID must contain exactly 16 hexadecimal characters"@)
    } else if unspecified(candidate.address) || multicast(candidate.address) {
        Some("Hue bridge address is not usable"@)
    } else {
        None
    }
}

impl BridgeCandidate {
    /// A bridge that was configured by hand.
    pub fn manual(id: &str, address: IpAddress) -> (r: Result<Self, HueError>)
        ensures
            r is Ok <==> is_bridge_id(id@),
            r matches Ok(candidate) ==> candidate.deep_view() == (BridgeCandidateView {
                id: text::ascii_lower_text(id@),
                address,
                name: "Hue Bridge"@,
            }),
            r matches Err(error) ==> error@
                == "Hue bridge ID must contain exactly 16 hexadecimal characters"@,
    {
        match normalize_bridge_id(id) {
            Ok(id) => Ok(BridgeCandidate { id, address, name: "Hue Bridge".to_owned() }),
            Err(error) => Err(error),
        }
    }
}

/// Checks a candidate and puts its identifier in lower case.
pub fn normalize_candidate(candidate: BridgeCandidate) -> (r: Result<BridgeCandidate, HueError>)
    ensures
        r is Ok <==> candidate_problem(candidate.deep_view()) is None,
        r matches Ok(normal) ==> normal.deep_view() == (BridgeCandidateView {
            id: text::ascii_lower_text(candidate.deep_view().id),
            ..candidate.deep_view()
        }),
        r matches Err(error) ==> Some(error@) == candidate_problem(candidate.deep_view()),
{
    let id: String = match normalize_bridge_id(candidate.id.as_str()) {
        Ok(id) => id,
        Err(error) => return Err(error),
    };
    if candidate.address.is_unspecified() || candidate.address.is_multicast() {
        return Err(hue_error("Hue bridge address is not usable"));
    }
    Ok(BridgeCandidate { id, address: candidate.address, name: candidate.name })
}

/// A bridge that is talked to: its candidate is checked and its identifier in
/// lower case.
#[derive(Debug)]
pub struct HueClient {
    candidate: BridgeCandidate,
}

impl HueClient {
    #[verifier::type_invariant]
    spec fn checked(&self) -> bool {
        candidate_problem(self.candidate.deep_view()) is None
    }

    /// The mathematical value of the candidate.
    pub closed spec fn target(&self) -> BridgeCandidateView {
        self.candidate.deep_view()
    }

    /// Takes a candidate that can be used.
    pub fn new(candidate: BridgeCandidate) -> (r: Result<Self, HueError>)
        ensures
            r is Ok <==> candidate_problem(candidate.deep_view()) is None,
            r matches Ok(client) ==> client.target() == (BridgeCandidateView {
                id: text::ascii_lower_text(candidate.deep_view().id),
                ..candidate.deep_view()
            }),
            r matches Err(error) ==> Some(error@) == candidate_problem(candidate.deep_view()),
    {
        proof {
            if candidate_problem(candidate.deep_view()) is None {
                law_normalizing_is_idempotent(candidate.deep_view().id);
            }
        }
        match normalize_candidate(candidate) {
            Ok(candidate) => Ok(HueClient { candidate }),
            Err(error) => Err(error),
        }
    }

    /// The candidate.
    pub fn candidate(&self) -> (r: &BridgeCandidate)
        ensures
            r.deep_view() == self.target(),
            candidate_problem(r.deep_view()) is None,
    {
        proof {
            use_type_invariant(self);
        }
        &self.candidate
    }
}

/// What local discovery resolved: the properties that matter, and the addresses.
#[derive(Debug, PartialEq)]
pub struct ServiceRecord {
    pub bridge_id: Option<String>,
    pub id: Option<String>,
    pub name: Option<String>,
    pub addresses: Vec<IpAddress>,
}

/// The mathematical value of [`ServiceRecord`].
#[verifier::ext_equal]
pub struct ServiceRecordView {
    pub bridge_id: Option<Seq<char>>,
    pub id: Option<Seq<char>>,
    pub name: Option<Seq<char>>,
    pub addresses: Seq<IpAddress>,
}

impl DeepView for ServiceRecord {
    type V = ServiceRecordView;

    open spec fn deep_view(&self) -> ServiceRecordView {
        ServiceRecordView {
            bridge_id: self.bridge_id.deep_view(),
            id: self.id.deep_view(),
            name: self.name.deep_view(),
            addresses: self.addresses.deep_view(),
        }
    }
}

impl DeepView for IpAddress {
    type V = IpAddress;

    open spec fn deep_view(&self) -> IpAddress {
        *self
    }
}

/// Whether an address found locally leads to another machine.
pub open spec fn reachable(address: IpAddress) -> bool {
    !loopback(address) && !unspecified(address)
}

/// Whether `i` is the place of the address to use: the first reachable one with
/// four bytes, or the first reachable one where none has four.
pub open spec fn is_best_address(addresses: Seq<IpAddress>, i: int) -> bool {
    &&& 0 <= i < addresses.len()
    &&& reachable(addresses[i])
    &&& forall|j: int|
        0 <= j < i && reachable(#[trigger] addresses[j]) ==> addresses[j] is V6 && addresses[i] is V4
    &&& addresses[i] is V6 ==> forall|j: int|
        0 <= j < addresses.len() && reachable(#[trigger] addresses[j]) ==> addresses[j] is V6
}

/// The address to use, if one is reachable.
pub fn best_address(addresses: &Vec<IpAddress>) -> (r: Option<IpAddress>)
    ensures
        r is None <==> forall|j: int|
            0 <= j < addresses@.len() ==> !reachable(#[trigger] addresses@[j]),
        r matches Some(address) ==> exists|i: int| #[trigger]
            is_best_address(addresses@, i) && address == addresses@[i],
{
    let mut best: Option<usize> = None;
    let mut i: usize = 0;
    while i < addresses.len()
        invariant
            i <= addresses.len(),
            best is None ==> forall|j: int| 0 <= j < i ==> !reachable(#[trigger] addresses@[j]),
            best matches Some(b) ==> b < i && is_best_address(addresses@.take(i as int), b as int),
        decreases addresses.len() - i,
    {
        let address: IpAddress = addresses[i];
        let ghost seen = addresses@.take(i as int);
        let ghost more = addresses@.take(i + 1);
        assert(more =~= seen.push(address));
        if !address.is_loopback() && !address.is_unspecified() {
            best = match best {
                None => Some(i),
                Some(b) => if addresses[b].is_ipv6() && !address.is_ipv6() {
                    Some(i)
                } else {
                    Some(b)
                },
            };
        }
        proof {
            if best is Some {
                let b = best->Some_0 as int;
                assert forall|j: int| 0 <= j < more.len() && reachable(#[trigger] more[j]) implies (
                j < b ==> more[j] is V6 && more[b] is V4) && (more[b] is V6 ==> more[j] is V6) by {
                    if j < i {
                        assert(more[j] == seen[j]);
                    }
                }
                assert(is_best_address(more, b));
            }
        }
        i += 1;
    }
    assert(addresses@.take(addresses@.len() as int) =~= addresses@);
    match best {
        Some(b) => Some(addresses[b]),
        None => None,
    }
}

/// The property that names the bridge of a record.
pub open spec fn record_id(record: ServiceRecordView) -> Option<Seq<char>> {
    if record.bridge_id is Some {
        record.bridge_id
    } else {
        record.id
    }
}

/// The bridge of a record: it needs a valid identifier and a reachable address.
pub fn candidate_of(record: ServiceRecord) -> (r: Option<BridgeCandidate>)
    ensures
        r is Some <==> {
            let view = record.deep_view();
            &&& record_id(view) matches Some(id) && is_bridge_id(id)
            &&& exists|j: int| 0 <= j < view.addresses.len() && reachable(#[trigger] view.addresses[j])
        },
        r matches Some(candidate) ==> {
            let view = record.deep_view();
            &&& candidate.deep_view().id == text::ascii_lower_text(record_id(view)->Some_0)
            &&& candidate.deep_view().name == match view.name {
                Some(name) => name,
                None => "Hue Bridge"@,
            }
            &&& exists|i: int| #[trigger]
                is_best_address(view.addresses, i) && candidate.address == view.addresses[i]
        },
{
    let ghost view = record.deep_view();
    assert(view.addresses =~= record.addresses@);
    let id: &String = match &record.bridge_id {
        Some(id) => id,
        None => match &record.id {
            Some(id) => id,
            None => return None,
        },
    };
    let id: String = match normalize_bridge_id(id.as_str()) {
        Ok(id) => id,
        Err(_) => return None,
    };
    match best_address(&record.addresses) {
        None => {
            assert forall|j: int| 0 <= j < view.addresses.len() implies !reachable(
                #[trigger] view.addresses[j],
            ) by {
                assert(!reachable(record.addresses@[j]));
            }
            None
        },
        Some(address) => {
            let ghost i = choose|i: int| #[trigger]
                is_best_address(record.addresses@, i) && address == record.addresses@[i];
            assert(is_best_address(view.addresses, i) && reachable(view.addresses[i]));
            let name: String = match &record.name {
                Some(name) => name.clone(),
                None => "Hue Bridge".to_owned(),
            };
            Some(BridgeCandidate { id, address, name })
        },
    }
}

/// Whether bridges are in the order of their identifiers, without repetition.
pub open spec fn ordered(bridges: Seq<BridgeCandidateView>) -> bool {
    forall|i: int, j: int|
        0 <= i < j < bridges.len() ==> text::text_less(
            (#[trigger] bridges[i]).id,
            (#[trigger] bridges[j]).id,
        )
}

/// Bridges with a bridge in place of the one with the same identifier, or at
/// its place in the order where there is none.
pub open spec fn with_bridge(
    bridges: Seq<BridgeCandidateView>,
    bridge: BridgeCandidateView,
) -> Seq<BridgeCandidateView>
    decreases bridges.len(),
{
    if bridges.len() == 0 {
        seq![bridge]
    } else if bridges[0].id == bridge.id {
        seq![bridge] + bridges.drop_first()
    } else if text::text_less(bridge.id, bridges[0].id) {
        seq![bridge] + bridges
    } else {
        seq![bridges[0]] + with_bridge(bridges.drop_first(), bridge)
    }
}

/// The bridges that local discovery has found so far, in the order of their
/// identifiers; what is found again replaces what was found before.
#[derive(Debug)]
pub struct BridgeDirectory {
    bridges: Vec<BridgeCandidate>,
}

impl BridgeDirectory {
    /// The bridges.
    pub closed spec fn bridges(&self) -> Seq<BridgeCandidateView> {
        self.bridges.deep_view()
    }

    #[verifier::type_invariant]
    spec fn in_order(&self) -> bool {
        ordered(self.bridges.deep_view())
    }

    /// No bridges.
    pub fn new() -> (r: Self)
        ensures
            r.bridges() == Seq::<BridgeCandidateView>::empty(),
    {
        let r: BridgeDirectory = BridgeDirectory { bridges: Vec::new() };
        assert(r.bridges() =~= Seq::<BridgeCandidateView>::empty());
        r
    }

    /// Adds a bridge.
    pub fn insert(&mut self, bridge: BridgeCandidate)
        ensures
            final(self).bridges() == with_bridge(old(self).bridges(), bridge.deep_view()),
    {
        proof {
            use_type_invariant(&*self);
        }
        let mut bridges: Vec<BridgeCandidate> = Vec::new();
        std::mem::swap(&mut bridges, &mut self.bridges);
        let ghost all = bridges.deep_view();
        let ghost view = bridge.deep_view();
        let mut i: usize = 0;
        assert(all.skip(0) =~= all);
        while i < bridges.len() && text::str_less(bridges[i].id.as_str(), bridge.id.as_str())
            invariant
                i <= bridges.len(),
                all == bridges.deep_view(),
                view == bridge.deep_view(),
                with_bridge(all, view) == all.take(i as int) + with_bridge(
                    all.skip(i as int),
                    view,
                ),
            decreases bridges.len() - i,
        {
            proof {
                let rest = all.skip(i as int);
                text::lemma_text_order(rest[0].id, view.id);
                assert(rest.drop_first() =~= all.skip(i + 1));
                assert(all.take(i + 1) =~= all.take(i as int) + seq![all[i as int]]);
                assert(with_bridge(all, view) =~= all.take(i + 1) + with_bridge(
                    all.skip(i + 1),
                    view,
                ));
            }
            i += 1;
        }
        let ghost rest = all.skip(i as int);
        if i < bridges.len() && text::str_eq(bridges[i].id.as_str(), bridge.id.as_str()) {
            bridges.set(i, bridge);
            assert(rest.drop_first() =~= all.skip(i + 1));
            assert(bridges.deep_view() =~= all.take(i as int) + (seq![view] + all.skip(i + 1)));
        } else {
            proof {
                if i < bridges@.len() {
                    text::lemma_text_order(rest[0].id, view.id);
                }
            }
            bridges.insert(i, bridge);
            assert(with_bridge(rest, view) =~= seq![view] + rest);
            assert(bridges.deep_view() =~= all.take(i as int) + (seq![view] + rest));
        }
        proof {
            law_directory_stays_ordered(all, view);
        }
        self.bridges = bridges;
    }

    /// The bridges in the order of their identifiers.
    pub fn into_bridges(self) -> (r: Vec<BridgeCandidate>)
        ensures
            r.deep_view() == self.bridges(),
            ordered(r.deep_view()),
    {
        proof {
            use_type_invariant(&self);
        }
        self.bridges
    }
}

proof fn lemma_with_bridge_ids(bridges: Seq<BridgeCandidateView>, bridge: BridgeCandidateView, i: int)
    requires
        0 <= i < with_bridge(bridges, bridge).len(),
    ensures
        with_bridge(bridges, bridge)[i] == bridge || exists|j: int|
            0 <= j < bridges.len() && with_bridge(bridges, bridge)[i] == #[trigger] bridges[j],
    decreases bridges.len(),
{
    if bridges.len() == 0 {
    } else if bridges[0].id == bridge.id {
        if i > 0 {
            assert(with_bridge(bridges, bridge)[i] == bridges[i]);
        }
    } else if text::text_less(bridge.id, bridges[0].id) {
        if i > 0 {
            assert(with_bridge(bridges, bridge)[i] == bridges[i - 1]);
        }
    } else {
        if i == 0 {
            assert(with_bridge(bridges, bridge)[0] == bridges[0]);
        } else {
            let rest = bridges.drop_first();
            assert(with_bridge(bridges, bridge)[i] == with_bridge(rest, bridge)[i - 1]);
            lemma_with_bridge_ids(rest, bridge, i - 1);
            if with_bridge(rest, bridge)[i - 1] != bridge {
                let j = choose|j: int|
                    0 <= j < rest.len() && with_bridge(rest, bridge)[i - 1] == #[trigger] rest[j];
                assert(rest[j] == bridges[j + 1]);
            }
        }
    }
}

/// Adding a bridge keeps the order and the absence of repetitions.
pub proof fn law_directory_stays_ordered(
    bridges: Seq<BridgeCandidateView>,
    bridge: BridgeCandidateView,
)
    requires
        ordered(bridges),
    ensures
        ordered(with_bridge(bridges, bridge)),
    decreases bridges.len(),
{
    let all = with_bridge(bridges, bridge);
    if bridges.len() > 0 {
        let rest = bridges.drop_first();
        assert(ordered(rest)) by {
            assert forall|i: int, j: int| 0 <= i < j < rest.len() implies text::text_less(
                (#[trigger] rest[i]).id,
                (#[trigger] rest[j]).id,
            ) by {
                assert(rest[i] == bridges[i + 1] && rest[j] == bridges[j + 1]);
            }
        }
        law_directory_stays_ordered(rest, bridge);
        text::lemma_text_order(bridge.id, bridges[0].id);
        let tail = with_bridge(rest, bridge);
        assert forall|i: int, j: int| 0 <= i < j < all.len() implies text::text_less(
            (#[trigger] all[i]).id,
            (#[trigger] all[j]).id,
        ) by {
            if bridges[0].id == bridge.id {
                assert(all[j] == bridges[j]);
                assert(all[i].id == bridges[i].id);
            } else if text::text_less(bridge.id, bridges[0].id) {
                assert(all[j] == bridges[j - 1]);
                if i > 0 {
                    assert(all[i] == bridges[i - 1]);
                } else if j > 1 {
                    text::lemma_text_order_transitive(
                        bridge.id,
                        bridges[0].id,
                        bridges[j - 1].id,
                    );
                }
            } else {
                assert(all[j] == tail[j - 1]);
                if i > 0 {
                    assert(all[i] == tail[i - 1]);
                } else {
                    assert(all[0] == bridges[0]);
                    lemma_with_bridge_ids(rest, bridge, j - 1);
                    if tail[j - 1] != bridge {
                        let k = choose|k: int|
                            0 <= k < rest.len() && tail[j - 1] == #[trigger] rest[k];
                        assert(rest[k] == bridges[k + 1]);
                    }
                }
            }
        }
    }
}

/// Whether the discovery service on the Internet is asked: only where nothing
/// was found locally.
pub fn needs_cloud_discovery(local: &Vec<BridgeCandidate>) -> (r: bool)
    ensures
        r == (local@.len() == 0),
{
    local.len() == 0
}

/// A bridge that the discovery service on the Internet reports.
#[derive(Debug, PartialEq)]
pub struct CloudBridge {
    pub id: String,
    pub address: IpAddress,
}

/// The mathematical value of [`CloudBridge`].
#[verifier::ext_equal]
pub struct CloudBridgeView {
    pub id: Seq<char>,
    pub address: IpAddress,
}

impl DeepView for CloudBridge {
    type V = CloudBridgeView;

    open spec fn deep_view(&self) -> CloudBridgeView {
        CloudBridgeView {
            id: self.id.deep_view(),
            address: self.address,
        }
    }
}

/// The bridge of a report.
pub open spec fn cloud_candidate(bridge: CloudBridgeView) -> BridgeCandidateView {
    BridgeCandidateView {
        id: text::ascii_lower_text(bridge.id),
        address: bridge.address,
        name: "Hue Bridge"@,
    }
}

/// The bridges that the discovery service reports; one invalid identifier
/// spoils them all.
pub fn cloud_candidates(found: &Vec<CloudBridge>) -> (r: Result<Vec<BridgeCandidate>, HueError>)
    ensures
        r is Ok <==> forall|i: int|
            0 <= i < found@.len() ==> is_bridge_id((#[trigger] found.deep_view()[i]).id),
        r matches Ok(bridges) ==> bridges.deep_view() == found.deep_view().map_values(
            |bridge: CloudBridgeView| cloud_candidate(bridge),
        ),
        r matches Err(error) ==> error@
            == "Hue bridge ID must contain exactly 16 hexadecimal characters"@,
{
    let mut bridges: Vec<BridgeCandidate> = Vec::new();
    let ghost all = found.deep_view();
    let mut i: usize = 0;
    while i < found.len()
        invariant
            i <= found.len(),
            all == found.deep_view(),
            bridges@.len() == i,
            forall|j: int| 0 <= j < i ==> is_bridge_id((#[trigger] all[j]).id),
            forall|j: int|
                0 <= j < i ==> (#[trigger] bridges.deep_view()[j]) == cloud_candidate(all[j]),
        decreases found.len() - i,
    {
        assert(all[i as int] == found[i as int].deep_view());
        let id: String = match normalize_bridge_id(found[i].id.as_str()) {
            Ok(id) => id,
            Err(error) => return Err(error),
        };
        let ghost before = bridges.deep_view();
        bridges.push(
            BridgeCandidate { id, address: found[i].address, name: "Hue Bridge".to_owned() },
        );
        assert(bridges.deep_view() =~= before.push(cloud_candidate(all[i as int])));
        i += 1;
    }
    assert(bridges.deep_view() =~= all.map_values(|bridge: CloudBridgeView| cloud_candidate(bridge)));
    Ok(bridges)
}

} // verus!
