//! The entertainment stream: its packets, and the frames that wait to be sent.
use crate::encoding;
use crate::hue::bridge::{hue_error, HueError};
use vstd::prelude::*;

verus! {

/// The port of the entertainment stream.
pub const ENTERTAINMENT_PORT: u16 = 2100;

/// How long a stream may take to stop, in seconds.
pub const STREAM_STOP_TIMEOUT_SECONDS: u64 = 6;

/// How long deactivating an area or putting lights back may take, in seconds.
pub const CLEANUP_TIMEOUT_SECONDS: u64 = 12;

/// The color of a channel.
#[derive(Clone, Copy, Debug, PartialEq, Eq, Structural)]
pub struct ChannelColor {
    pub channel_id: u8,
    pub red: u16,
    pub green: u16,
    pub blue: u16,
}

/// The name at the start of each packet: `HueStream`.
pub open spec fn packet_name() -> Seq<u8> {
    seq![72u8, 117u8, 101u8, 83u8, 116u8, 114u8, 101u8, 97u8, 109u8]
}

/// What follows the name: version 2.0, the sequence number, reserved bytes, RGB
/// colors, and a reserved byte.
pub open spec fn packet_header(sequence: u8) -> Seq<u8> {
    seq![2u8, 0u8, sequence, 0u8, 0u8, 0u8, 0u8]
}

/// The seven bytes of a color: its channel, then red, green and blue, high byte
/// first.
pub open spec fn color_bytes(color: ChannelColor) -> Seq<u8> {
    seq![
        color.channel_id,
        (color.red / 256) as u8,
        (color.red % 256) as u8,
        (color.green / 256) as u8,
        (color.green % 256) as u8,
        (color.blue / 256) as u8,
        (color.blue % 256) as u8,
    ]
}

/// The bytes of colors in a row.
pub open spec fn colors_bytes(colors: Seq<ChannelColor>) -> Seq<u8>
    decreases colors.len(),
{
    if colors.len() == 0 {
        Seq::empty()
    } else {
        colors_bytes(colors.drop_last()) + color_bytes(colors.last())
    }
}

/// A packet of colors for an area.
pub open spec fn packet_bytes(area: u128, sequence: u8, colors: Seq<ChannelColor>) -> Seq<u8> {
    packet_name() + packet_header(sequence) + vstd::utf8::encode_utf8(encoding::uuid_text(area))
        + colors_bytes(colors)
}

/// Whether two colors are for one channel.
pub open spec fn repeats_channel(colors: Seq<ChannelColor>) -> bool {
    exists|i: int, j: int|
        0 <= i < j < colors.len() && (#[trigger] colors[i]).channel_id == (
        #[trigger] colors[j]).channel_id
}

/// Why colors cannot be put in a packet, if they cannot.
pub open spec fn packet_problem(area_id: Seq<char>, colors: Seq<ChannelColor>) -> Option<Seq<char>> {
    if encoding::uuid_value(area_id) is None {
        Some("Entertainment area ID is not a UUID"@)
    } else if repeats_channel(colors) {
        Some("Hue Entertainment frame contains a duplicate channel"@)
    } else {
        None
    }
}

fn find_repeat(colors: &[ChannelColor]) -> (r: bool)
    ensures
        r == repeats_channel(colors@),
{
    let mut i: usize = 0;
    while i < colors.len()
        invariant
            i <= colors@.len(),
            forall|a: int, b: int|
                0 <= a < b < i ==> (#[trigger] colors@[a]).channel_id != (
                #[trigger] colors@[b]).channel_id,
        decreases colors@.len() - i,
    {
        let mut j: usize = 0;
        while j < i
            invariant
                j <= i < colors@.len(),
                forall|a: int| 0 <= a < j ==> (#[trigger] colors@[a]).channel_id
                    != colors@[i as int].channel_id,
            decreases i - j,
        {
            if colors[j].channel_id == colors[i].channel_id {
                return true;
            }
            j += 1;
        }
        i += 1;
    }
    false
}

/// Puts colors in a packet for an area.
pub fn encode_rgb_packet(area_id: &str, sequence: u8, colors: &[ChannelColor]) -> (r: Result<
    Vec<u8>,
    HueError,
>)
    ensures
        r is Ok <==> packet_problem(area_id@, colors@) is None,
        r matches Ok(packet) ==> packet@ == packet_bytes(
            encoding::uuid_value(area_id@)->Some_0,
            sequence,
            colors@,
        ),
        r matches Err(error) ==> Some(error@) == packet_problem(area_id@, colors@),
{
    let area: u128 = match encoding::parse_uuid(area_id) {
        Ok(area) => area,
        Err(_) => return Err(hue_error("Entertainment area ID is not a UUID")),
    };
    let canonical: String = encoding::format_uuid(area);
    if find_repeat(colors) {
        return Err(hue_error("Hue Entertainment frame contains a duplicate channel"));
    }
    let mut packet: Vec<u8> = vec![
        72,
        117,
        101,
        83,
        116,
        114,
        101,
        97,
        109,
        2,
        0,
        sequence,
        0,
        0,
        0,
        0,
    ];
    assert(packet@ =~= packet_name() + packet_header(sequence));
    let ghost named = packet@;
    packet.extend_from_slice(canonical.as_str().as_bytes());
    let ghost head = named + vstd::utf8::encode_utf8(encoding::uuid_text(area));
    assert(packet@ =~= head);
    let mut i: usize = 0;
    assert(packet@ =~= head + colors_bytes(colors@.take(0)));
    while i < colors.len()
        invariant
            i <= colors@.len(),
            packet@ == head + colors_bytes(colors@.take(i as int)),
        decreases colors@.len() - i,
    {
        let color: ChannelColor = colors[i];
        let ghost before = packet@;
        packet.push(color.channel_id);
        packet.push((color.red / 256) as u8);
        packet.push((color.red % 256) as u8);
        packet.push((color.green / 256) as u8);
        packet.push((color.green % 256) as u8);
        packet.push((color.blue / 256) as u8);
        packet.push((color.blue % 256) as u8);
        proof {
            let seen = colors@.take(i + 1);
            assert(seen.drop_last() =~= colors@.take(i as int));
            assert(packet@ =~= before + color_bytes(color));
            assert(packet@ =~= head + colors_bytes(seen));
        }
        i += 1;
    }
    assert(colors@.take(colors@.len() as int) =~= colors@);
    Ok(packet)
}

proof fn lemma_colors_bytes(colors: Seq<ChannelColor>, i: int)
    ensures
        colors_bytes(colors).len() == 7 * colors.len(),
        0 <= i < colors.len() ==> colors_bytes(colors).subrange(7 * i, 7 * i + 7) == color_bytes(
            colors[i],
        ),
    decreases colors.len(),
{
    if colors.len() > 0 {
        let shorter = colors.drop_last();
        lemma_colors_bytes(shorter, i);
        if 0 <= i < shorter.len() {
            assert(colors_bytes(colors).subrange(7 * i, 7 * i + 7) =~= colors_bytes(
                shorter,
            ).subrange(7 * i, 7 * i + 7));
        } else if i == shorter.len() {
            assert(colors_bytes(colors).subrange(7 * i, 7 * i + 7) =~= color_bytes(colors.last()));
        }
    }
}

/// A packet is 52 bytes and seven for each color; its twelfth byte is the
/// sequence number, and the colors follow each other from the 53rd on.
pub proof fn law_packet_layout(area: u128, sequence: u8, colors: Seq<ChannelColor>, i: int)
    requires
        0 <= i < colors.len(),
    ensures
        ({
            let packet = packet_bytes(area, sequence, colors);
            &&& packet.len() == 52 + 7 * colors.len()
            &&& packet[11] == sequence
            &&& packet.subrange(52 + 7 * i, 59 + 7 * i) == color_bytes(colors[i])
        }),
{
    encoding::lemma_uuid_text_is_ascii(area);
    lemma_colors_bytes(colors, i);
    let packet = packet_bytes(area, sequence, colors);
    assert(packet.subrange(52 + 7 * i, 59 + 7 * i) =~= colors_bytes(colors).subrange(
        7 * i,
        7 * i + 7,
    ));
}

/// A packet tells its sequence number and all of its colors: different ones
/// make different packets.
pub proof fn law_packet_tells_its_colors(
    area: u128,
    sequence1: u8,
    colors1: Seq<ChannelColor>,
    sequence2: u8,
    colors2: Seq<ChannelColor>,
)
    requires
        packet_bytes(area, sequence1, colors1) == packet_bytes(area, sequence2, colors2),
    ensures
        sequence1 == sequence2,
        colors1 == colors2,
{
    let packet1 = packet_bytes(area, sequence1, colors1);
    let packet2 = packet_bytes(area, sequence2, colors2);
    encoding::lemma_uuid_text_is_ascii(area);
    lemma_colors_bytes(colors1, 0);
    lemma_colors_bytes(colors2, 0);
    assert(packet1[11] == sequence1 && packet2[11] == sequence2);
    assert(packet1.len() == 52 + 7 * colors1.len());
    assert(packet2.len() == 52 + 7 * colors2.len());
    assert(colors1.len() == colors2.len());
    assert forall|i: int| 0 <= i < colors1.len() implies colors1[i] == colors2[i] by {
        law_packet_layout(area, sequence1, colors1, i);
        law_packet_layout(area, sequence2, colors2, i);
        let b1 = color_bytes(colors1[i]);
        let b2 = color_bytes(colors2[i]);
        assert(b1 == b2);
        assert(b1[0] == b2[0] && b1[1] == b2[1] && b1[2] == b2[2] && b1[3] == b2[3] && b1[4]
            == b2[4] && b1[5] == b2[5] && b1[6] == b2[6]);
    }
    assert(colors1 =~= colors2);
}

/// What the sender of a stream finds in its mailbox.
#[derive(Debug, PartialEq, Eq)]
pub enum MailboxStep {
    /// Nothing yet.
    Wait,
    /// The stream is to end.
    Stop,
    /// The latest frame.
    Frame(Vec<ChannelColor>),
}

/// The latest frame that waits to be sent; a newer frame takes its place.
#[derive(Debug)]
pub struct StreamMailbox {
    latest: Option<Vec<ChannelColor>>,
    stopped: bool,
    failure: Option<String>,
}

/// The mathematical value of [`StreamMailbox`].
#[verifier::ext_equal]
pub struct StreamMailboxView {
    pub latest: Option<Seq<ChannelColor>>,
    pub stopped: bool,
    pub failure: Option<Seq<char>>,
}

/// A mailbox in which a frame was left: it takes the place of the one that waits,
/// unless the stream ended.
pub open spec fn with_frame(
    mailbox: StreamMailboxView,
    colors: Seq<ChannelColor>,
) -> StreamMailboxView {
    if mailbox.stopped {
        mailbox
    } else {
        StreamMailboxView { latest: Some(colors), ..mailbox }
    }
}

/// A mailbox in which frames were left one after another.
pub open spec fn with_frames(
    mailbox: StreamMailboxView,
    frames: Seq<Seq<ChannelColor>>,
) -> StreamMailboxView
    decreases frames.len(),
{
    if frames.len() == 0 {
        mailbox
    } else {
        with_frame(with_frames(mailbox, frames.drop_last()), frames.last())
    }
}

impl StreamMailbox {
    /// The mathematical value of the mailbox.
    pub closed spec fn state(&self) -> StreamMailboxView {
        StreamMailboxView {
            latest: match self.latest {
                Some(colors) => Some(colors@),
                None => None,
            },
            stopped: self.stopped,
            failure: self.failure.deep_view(),
        }
    }

    /// An empty mailbox.
    pub fn new() -> (r: Self)
        ensures
            r.state() == (StreamMailboxView { latest: None, stopped: false, failure: None }),
    {
        StreamMailbox { latest: None, stopped: false, failure: None }
    }

    /// Leaves a frame in place of the one that waits, unless the stream ended.
    pub fn send(&mut self, colors: Vec<ChannelColor>) -> (r: Result<(), HueError>)
        ensures
            r is Err <==> old(self).state().stopped,
            final(self).state() == with_frame(old(self).state(), colors@),
            r matches Err(error) ==> error@ == match old(self).state().failure {
                Some(failure) => failure,
                None => "Hue Entertainment stream stopped"@,
            },
    {
        if self.stopped {
            return Err(
                match &self.failure {
                    Some(failure) => HueError::new(failure.clone()),
                    None => hue_error("Hue Entertainment stream stopped"),
                },
            );
        }
        self.latest = Some(colors);
        Ok(())
    }

    /// Takes the frame that waits; a stream that ended leaves it.
    pub fn take(&mut self) -> (r: MailboxStep)
        ensures
            old(self).state().stopped ==> r == MailboxStep::Stop && final(self).state() == old(
                self,
            ).state(),
            !old(self).state().stopped ==> {
                &&& r is Wait <==> old(self).state().latest is None
                &&& r !is Stop
                &&& r matches MailboxStep::Frame(colors) ==> Some(colors@) == old(
                    self,
                ).state().latest
                &&& final(self).state() == (StreamMailboxView { latest: None, ..old(self).state() })
            },
    {
        if self.stopped {
            return MailboxStep::Stop;
        }
        match self.latest.take() {
            Some(colors) => MailboxStep::Frame(colors),
            None => MailboxStep::Wait,
        }
    }

    /// Ends the stream.
    pub fn stop(&mut self)
        ensures
            final(self).state() == (StreamMailboxView { stopped: true, ..old(self).state() }),
    {
        self.stopped = true;
    }

    /// Ends the stream by a failure, which later frames are answered with.
    pub fn fail(&mut self, message: String)
        ensures
            final(self).state() == (StreamMailboxView {
                stopped: true,
                failure: Some(message@),
                ..old(self).state()
            }),
    {
        self.failure = Some(message);
        self.stopped = true;
    }

    /// Whether the stream ended.
    pub fn is_stopped(&self) -> (r: bool)
        ensures
            r == self.state().stopped,
    {
        self.stopped
    }
}

/// Numbers the packets of a stream; after 255 follows 0.
#[derive(Clone, Copy, Debug, PartialEq, Eq, Structural)]
pub struct StreamSequence {
    pub next: u8,
}

impl StreamSequence {
    /// The number of the first packet is 0.
    pub fn new() -> (r: Self)
        ensures
            r.next == 0,
    {
        StreamSequence { next: 0 }
    }

    /// Moves on after a packet that was sent.
    pub fn advance(&mut self)
        ensures
            final(self).next == (old(self).next + 1) % 256,
    {
        self.next = self.next.wrapping_add(1);
    }
}

/// The identity with its closing zero byte, if it and the key fit in the
/// buffers that the handshake offers.
pub fn psk_identity(
    identity: &[u8],
    psk: &[u8],
    identity_capacity: usize,
    psk_capacity: usize,
) -> (r: Option<Vec<u8>>)
    ensures
        r is Some <==> identity@.len() + 1 <= identity_capacity && psk@.len() <= psk_capacity,
        r matches Some(bytes) ==> bytes@ == identity@.push(0u8),
{
    if identity.len() >= identity_capacity || psk.len() > psk_capacity {
        return None;
    }
    let mut bytes: Vec<u8> = vstd::slice::slice_to_vec(identity);
    bytes.push(0);
    Some(bytes)
}

/// However many frames are left before one is taken, the last of them waits.
pub proof fn law_only_the_latest_frame_waits(
    mailbox: StreamMailboxView,
    frames: Seq<Seq<ChannelColor>>,
)
    requires
        frames.len() > 0,
        !mailbox.stopped,
    ensures
        with_frames(mailbox, frames) == (StreamMailboxView {
            latest: Some(frames.last()),
            ..mailbox
        }),
    decreases frames.len(),
{
    if frames.len() > 1 {
        law_only_the_latest_frame_waits(mailbox, frames.drop_last());
    } else {
        reveal_with_fuel(with_frames, 2);
    }
}

/// A stream that ended takes no more frames.
pub proof fn law_ended_stream_takes_no_frames(
    mailbox: StreamMailboxView,
    frames: Seq<Seq<ChannelColor>>,
)
    requires
        mailbox.stopped,
    ensures
        with_frames(mailbox, frames) == mailbox,
    decreases frames.len(),
{
    if frames.len() > 0 {
        law_ended_stream_takes_no_frames(mailbox, frames.drop_last());
    }
}

} // verus!
