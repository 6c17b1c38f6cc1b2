//! Records on a byte stream: one line of JSON text each, of bounded length.
use crate::domain::ipc::{from_ndjson, to_ndjson, ProtocolErrorView};
use crate::domain::ipc;
use crate::encoding;
use crate::ipc::error::{Error, ErrorView, IoFailure, IoFailureView, IoKind};
use vstd::prelude::*;
use vstd::slice::slice_subrange;

verus! {

/// The longest record that is read or written, in bytes, where no other limit is set.
pub const DEFAULT_MAX_RECORD_SIZE: usize = 1_048_576;

/// Where the first line feed stands, or the length where there is none.
pub open spec fn line_end(s: Seq<u8>) -> nat
    decreases s.len(),
{
    if s.len() == 0 || s[0] == 10 {
        0
    } else {
        1 + line_end(s.drop_first())
    }
}

proof fn lemma_line_end(s: Seq<u8>)
    ensures
        line_end(s) <= s.len(),
        line_end(s) < s.len() ==> s[line_end(s) as int] == 10,
        forall|i: int| 0 <= i < line_end(s) ==> #[trigger] s[i] != 10,
    decreases s.len(),
{
    if s.len() > 0 && s[0] != 10 {
        let rest = s.drop_first();
        lemma_line_end(rest);
        assert forall|i: int| 0 <= i < line_end(s) implies #[trigger] s[i] != 10 by {
            if i > 0 {
                assert(rest[i - 1] == s[i]);
            }
        }
    }
}

proof fn lemma_line_end_unique(s: Seq<u8>, n: nat)
    requires
        n <= s.len(),
        n < s.len() ==> s[n as int] == 10,
        forall|i: int| 0 <= i < n ==> #[trigger] s[i] != 10,
    ensures
        line_end(s) == n,
{
    lemma_line_end(s);
    if line_end(s) < n {
        assert(s[line_end(s) as int] != 10);
    } else if n < line_end(s) {
        assert(s[n as int] != 10);
    }
}

/// What reading a line comes to.
pub enum LineRead {
    /// The line without its line feed, and the bytes behind it.
    Line { line: Seq<u8>, rest: Seq<u8> },
    /// The line is longer than the limit.
    TooLarge,
    /// The bytes end before the line does.
    Ended,
}

/// Reading a line whose beginning has been read before, out of bytes.
pub open spec fn read_bytes(record: Seq<u8>, bytes: Seq<u8>, limit: nat) -> LineRead {
    let end = line_end(bytes);
    if record.len() + end > limit {
        LineRead::TooLarge
    } else if end < bytes.len() {
        LineRead::Line {
            line: record + bytes.take(end as int),
            rest: bytes.skip(end as int + 1),
        }
    } else {
        LineRead::Ended
    }
}

/// The bytes of all chunks in a row.
pub open spec fn joined(chunks: Seq<Seq<u8>>) -> Seq<u8>
    decreases chunks.len(),
{
    if chunks.len() == 0 {
        Seq::empty()
    } else {
        chunks[0] + joined(chunks.drop_first())
    }
}

/// What reading one chunk comes to.
pub enum ChunkRead {
    /// There is nothing to read.
    Ended,
    /// The line is longer than the limit.
    TooLarge,
    /// The line is complete; so many bytes were taken, its line feed with them.
    Complete { line: Seq<u8>, consumed: nat },
    /// The line goes on behind the chunk.
    More { record: Seq<u8> },
}

/// Reading on in a line whose beginning has been read before, out of one chunk.
pub open spec fn read_chunk(record: Seq<u8>, chunk: Seq<u8>, limit: nat) -> ChunkRead {
    let end = line_end(chunk);
    if chunk.len() == 0 {
        ChunkRead::Ended
    } else if record.len() + end > limit {
        ChunkRead::TooLarge
    } else if end < chunk.len() {
        ChunkRead::Complete { line: record + chunk.take(end as int), consumed: end + 1 }
    } else {
        ChunkRead::More { record: record + chunk }
    }
}

/// Reading a line whose beginning has been read before, chunk by chunk; an
/// empty chunk is the end.
pub open spec fn read_chunks(record: Seq<u8>, chunks: Seq<Seq<u8>>, limit: nat) -> LineRead
    decreases chunks.len(),
{
    if chunks.len() == 0 || chunks[0].len() == 0 {
        LineRead::Ended
    } else {
        match read_chunk(record, chunks[0], limit) {
            ChunkRead::Ended => LineRead::Ended,
            ChunkRead::TooLarge => LineRead::TooLarge,
            ChunkRead::Complete { line, consumed } => LineRead::Line {
                line,
                rest: chunks[0].skip(consumed as int) + joined(chunks.drop_first()),
            },
            ChunkRead::More { record } => read_chunks(record, chunks.drop_first(), limit),
        }
    }
}

/// What feeding bytes to a reader comes to.
#[derive(Clone, Copy, Debug, PartialEq, Eq, Structural)]
pub enum Fed {
    /// The line goes on; all bytes were taken.
    More,
    /// The line is complete; this many bytes were taken, its line feed with them.
    Complete { consumed: usize },
}

/// Collects one record out of the chunks that a stream delivers.
#[derive(Debug)]
pub struct RecordReader {
    record: Vec<u8>,
    limit: usize,
}

impl RecordReader {
    /// What has been collected.
    pub closed spec fn record(&self) -> Seq<u8> {
        self.record@
    }

    /// The longest record that is accepted.
    pub closed spec fn limit(&self) -> usize {
        self.limit
    }

    #[verifier::type_invariant]
    spec fn bounded(&self) -> bool {
        self.record@.len() <= self.limit
    }

    /// A reader for one record of at most `limit` bytes.
    pub fn new(limit: usize) -> (r: Self)
        ensures
            r.record() == Seq::<u8>::empty(),
            r.limit() == limit,
    {
        RecordReader { record: Vec::new(), limit }
    }

    /// Takes the bytes that the stream has to offer; none means that it ended.
    pub fn feed(&mut self, available: &[u8]) -> (r: Result<Fed, Error>)
        ensures
            final(self).limit() == old(self).limit(),
            match read_chunk(old(self).record(), available@, old(self).limit() as nat) {
                ChunkRead::Ended => {
                    &&& r == Err::<Fed, Error>(Error::UnexpectedEof)
                    &&& final(self).record() == old(self).record()
                },
                ChunkRead::TooLarge => {
                    &&& r == Err::<Fed, Error>(
                        (Error::RecordTooLarge { limit: old(self).limit() }),
                    )
                    &&& final(self).record() == old(self).record()
                },
                ChunkRead::Complete { line, consumed } => {
                    &&& r == Ok::<Fed, Error>((Fed::Complete { consumed: consumed as usize }))
                    &&& consumed <= usize::MAX
                    &&& final(self).record() == line
                },
                ChunkRead::More { record } => {
                    &&& r == Ok::<Fed, Error>(Fed::More)
                    &&& final(self).record() == record
                },
            },
    {
        proof {
            use_type_invariant(&*self);
        }
        let limit: usize = self.limit;
        let length: usize = available.len();
        if length == 0 {
            return Err(Error::UnexpectedEof);
        }
        let mut end: usize = 0;
        while end < length && available[end] != 10
            invariant
                end <= length == available@.len(),
                forall|i: int| 0 <= i < end ==> #[trigger] available@[i] != 10,
            decreases length - end,
        {
            end += 1;
        }
        proof {
            lemma_line_end_unique(available@, end as nat);
        }
        if end > limit - self.record.len() {
            return Err(Error::RecordTooLarge { limit });
        }
        let ghost before = self.record@;
        let mut record: Vec<u8> = Vec::new();
        std::mem::swap(&mut record, &mut self.record);
        record.extend_from_slice(slice_subrange(available, 0, end));
        assert(record@ =~= before + available@.take(end as int));
        assert(available@.take(available@.len() as int) =~= available@);
        self.record = record;
        if end < length {
            Ok(Fed::Complete { consumed: end + 1 })
        } else {
            Ok(Fed::More)
        }
    }

    /// The JSON text of a record that is complete.
    pub fn finish(self) -> (r: Result<String, Error>)
        ensures
            r is Ok <==> record_text(self.record()) is Ok,
            r matches Ok(json) ==> json@ == record_text(self.record())->Ok_0,
            r matches Err(error) ==> error.deep_view() == record_text(self.record())->Err_0,
    {
        match encoding::utf8_text(self.record.as_slice()) {
            Err(reason) => Err(
                Error::Io(IoFailure { kind: IoKind::InvalidData, message: reason }),
            ),
            Ok(line) => match from_ndjson(line) {
                Ok(json) => Ok(json.to_owned()),
                Err(error) => Err(Error::Protocol(error)),
            },
        }
    }
}

/// The JSON text of a line: it is valid UTF-8 and holds no line break but one
/// carriage return at its end.
pub open spec fn record_text(line: Seq<u8>) -> Result<Seq<char>, ErrorView> {
    if !vstd::utf8::valid_utf8(line) {
        Err(
            ErrorView::Io(
                IoFailureView {
                    kind: IoKind::InvalidData,
                    message: encoding::utf8_error_text(line),
                },
            ),
        )
    } else {
        let body = ipc::record_body(vstd::utf8::decode_utf8(line));
        if ipc::has_line_break(body) {
            Err(ErrorView::Protocol(ProtocolErrorView::MultipleRecords))
        } else {
            Ok(body)
        }
    }
}

/// Writes JSON text as one record, if it is not too long.
pub fn encode_record(json: &str, limit: usize) -> (r: Result<String, Error>)
    ensures
        r is Ok <==> vstd::utf8::encode_utf8(json@).len() <= limit,
        r matches Ok(record) ==> record@ == json@.push('\n'),
        r matches Err(error) ==> error == (Error::RecordTooLarge { limit }),
{
    if json.as_bytes().len() > limit {
        return Err(Error::RecordTooLarge { limit });
    }
    Ok(to_ndjson(json))
}

proof fn lemma_line_end_concat(a: Seq<u8>, b: Seq<u8>)
    ensures
        line_end(a) < a.len() ==> line_end(a + b) == line_end(a),
        line_end(a) == a.len() ==> line_end(a + b) == a.len() + line_end(b),
{
    lemma_line_end(a);
    lemma_line_end(b);
    let s = a + b;
    if line_end(a) < a.len() {
        lemma_line_end_unique(s, line_end(a));
    } else {
        assert forall|i: int| 0 <= i < a.len() + line_end(b) implies #[trigger] s[i] != 10 by {
            if i >= a.len() {
                assert(s[i] == b[i - a.len()]);
            } else {
                assert(s[i] == a[i]);
            }
        }
        lemma_line_end_unique(s, a.len() + line_end(b));
    }
}

/// However a stream is cut into chunks, the same record is read from it.
pub proof fn law_chunks_do_not_matter(record: Seq<u8>, chunks: Seq<Seq<u8>>, limit: nat)
    requires
        record.len() <= limit,
        forall|i: int| 0 <= i < chunks.len() ==> (#[trigger] chunks[i]).len() > 0,
    ensures
        read_chunks(record, chunks, limit) == read_bytes(record, joined(chunks), limit),
    decreases chunks.len(),
{
    if chunks.len() > 0 {
        let chunk = chunks[0];
        let rest = chunks.drop_first();
        let bytes = joined(chunks);
        lemma_line_end(chunk);
        lemma_line_end(bytes);
        lemma_line_end_concat(chunk, joined(rest));
        assert forall|i: int| 0 <= i < rest.len() implies (#[trigger] rest[i]).len() > 0 by {
            assert(rest[i] == chunks[i + 1]);
        }
        let end = line_end(chunk) as int;
        if end < chunk.len() {
            assert(bytes.take(end) =~= chunk.take(end));
            assert(bytes.skip(end + 1) =~= chunk.skip(end + 1) + joined(rest));
        } else if record.len() + end <= limit {
            law_chunks_do_not_matter(record + chunk, rest, limit);
            let more = line_end(joined(rest)) as int;
            lemma_line_end(joined(rest));
            assert(record + bytes.take(end + more) =~= (record + chunk) + joined(rest).take(more));
            if more < joined(rest).len() {
                assert(bytes.skip(end + more + 1) =~= joined(rest).skip(more + 1));
            }
        }
    }
}

proof fn lemma_encoded_byte(scalar: u32, i: int)
    requires
        0 <= i < vstd::utf8::encode_scalar(scalar).len(),
        scalar != 10,
    ensures
        vstd::utf8::encode_scalar(scalar)[i] != 10,
{
    assert(forall|x: u8| #[trigger] (0x80u8 | x) >= 0x80u8) by (bit_vector);
    assert(forall|x: u8| #[trigger] (0xC0u8 | x) >= 0x80u8) by (bit_vector);
    assert(forall|x: u8| #[trigger] (0xE0u8 | x) >= 0x80u8) by (bit_vector);
    assert(forall|x: u8| #[trigger] (0xF0u8 | x) >= 0x80u8) by (bit_vector);
    assert(scalar <= 0x7f ==> scalar & 0x7f == scalar) by (bit_vector);
}

proof fn lemma_encoded_line(json: Seq<char>)
    requires
        !json.contains('\n'),
    ensures
        forall|i: int|
            0 <= i < vstd::utf8::encode_utf8(json).len() ==> #[trigger] vstd::utf8::encode_utf8(
                json,
            )[i] != 10,
    decreases json.len(),
{
    if json.len() > 0 {
        let rest = json.drop_first();
        assert(!rest.contains('\n')) by {
            if rest.contains('\n') {
                let i = choose|i: int| 0 <= i < rest.len() && rest[i] == '\n';
                assert(json[i + 1] == '\n');
            }
        }
        lemma_encoded_line(rest);
        assert(json[0] != '\n') by {
            if json[0] == '\n' {
                assert(json.contains(json[0]));
            }
        }
        let scalar = json[0] as u32;
        let first = vstd::utf8::encode_scalar(scalar);
        vstd::utf8::char_u32_cast(json[0], scalar);
        let bytes = vstd::utf8::encode_utf8(json);
        assert forall|i: int| 0 <= i < bytes.len() implies #[trigger] bytes[i] != 10 by {
            if i < first.len() {
                lemma_encoded_byte(scalar, i);
            } else {
                assert(bytes[i] == vstd::utf8::encode_utf8(rest)[i - first.len()]);
            }
        }
    }
}

proof fn lemma_encode_push_line_feed(json: Seq<char>)
    ensures
        vstd::utf8::encode_utf8(json.push('\n')) == vstd::utf8::encode_utf8(json).push(10u8),
    decreases json.len(),
{
    let longer = json.push('\n');
    if json.len() == 0 {
        assert(longer.drop_first() =~= json);
        assert(10u32 & 0x7f == 10u32) by (bit_vector);
        reveal_with_fuel(vstd::utf8::encode_utf8, 2);
        assert(vstd::utf8::encode_utf8(longer) =~= seq![10u8]);
    } else {
        assert(longer.drop_first() =~= json.drop_first().push('\n'));
        lemma_encode_push_line_feed(json.drop_first());
        assert(vstd::utf8::encode_utf8(longer) =~= vstd::utf8::encode_utf8(json).push(10u8));
    }
}

/// JSON text without line breaks that is written as a record is read back as it
/// was, however the stream is cut into chunks, and the bytes behind it stay.
pub proof fn law_written_record_is_read_back(
    json: Seq<char>,
    chunks: Seq<Seq<u8>>,
    rest: Seq<u8>,
    limit: nat,
)
    requires
        !ipc::has_line_break(json),
        vstd::utf8::encode_utf8(json).len() <= limit,
        forall|i: int| 0 <= i < chunks.len() ==> (#[trigger] chunks[i]).len() > 0,
        joined(chunks) == vstd::utf8::encode_utf8(json.push('\n')) + rest,
    ensures
        read_chunks(Seq::empty(), chunks, limit) == (LineRead::Line {
            line: vstd::utf8::encode_utf8(json),
            rest,
        }),
        record_text(vstd::utf8::encode_utf8(json)) == Ok::<Seq<char>, ErrorView>(json),
{
    let line = vstd::utf8::encode_utf8(json);
    let bytes = joined(chunks);
    law_chunks_do_not_matter(Seq::empty(), chunks, limit);
    lemma_encoded_line(json);
    lemma_encode_push_line_feed(json);
    assert(bytes =~= line.push(10u8) + rest);
    assert forall|i: int| 0 <= i < line.len() implies #[trigger] bytes[i] != 10 by {
        assert(bytes[i] == line[i]);
    }
    lemma_line_end_unique(bytes, line.len());
    assert(Seq::<u8>::empty() + bytes.take(line.len() as int) =~= line);
    assert(bytes.skip(line.len() as int + 1) =~= rest);
    vstd::utf8::encode_utf8_valid_utf8(json);
    vstd::utf8::encode_utf8_decode_utf8(json);
    assert(ipc::record_body(json) == json) by {
        if json.len() > 0 {
            assert(json.contains(json.last()));
        }
    }
}

/// A line that is longer than the limit is refused, also before its end is seen.
pub proof fn law_long_record_is_refused(chunks: Seq<Seq<u8>>, limit: nat)
    requires
        forall|i: int| 0 <= i < chunks.len() ==> (#[trigger] chunks[i]).len() > 0,
        line_end(joined(chunks)) > limit,
    ensures
        read_chunks(Seq::empty(), chunks, limit) == LineRead::TooLarge,
{
    law_chunks_do_not_matter(Seq::empty(), chunks, limit);
}

} // verus!
