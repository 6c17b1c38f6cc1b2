//! What the transport accepts, refuses and waits for.
use crate::domain::ipc::ResponseEnvelopeView;
use crate::encoding;
use crate::ipc::client::WatchOptions;
use crate::ipc::client;
use crate::ipc::error::{ErrorView, IoKind};
use crate::ipc::error;
use crate::ipc::record::{ChunkRead, LineRead};
use crate::ipc::record;
use crate::ipc::socket::{FileIdentity, FileKind, Probe};
use crate::ipc::socket;
use vstd::prelude::*;

verus! {

/// A response is accepted exactly where it speaks the version of the protocol and answers
/// the request; else the error tells the version, or both identifiers.
pub proof fn law_response_answers_its_request(request_id: u128, response: ResponseEnvelopeView)
    ensures
        ({
            let problem = client::response_problem(request_id, response);
            &&& problem is None <==> response.version == 1 && response.id == request_id
            &&& response.version != 1 ==> problem == Some(
                client::version_mismatch(response.version),
            )
            &&& response.version == 1 && response.id != request_id ==> problem == Some(
                ErrorView::IdMismatch {
                    expected: encoding::uuid_text(request_id),
                    received: encoding::uuid_text(response.id),
                },
            )
        }),
{
}

/// A watch begins exactly where its request is answered by an acknowledgement or by a
/// status, which it hands on; an error of the service is handed on too.
pub proof fn law_watch_begins_with_an_answer(request_id: u128, response: ResponseEnvelopeView)
    ensures
        ({
            let begun = client::watch_start(request_id, response);
            let accepted = response.version == 1 && response.id == request_id;
            let payload = response.response->payload;
            let answered = accepted && response.response is Success;
            &&& begun is Ok <==> answered && (payload is Acknowledged || payload is Status)
            &&& begun is Ok && payload is Acknowledged ==> begun->Ok_0 is None
            &&& begun is Ok && payload is Status ==> begun->Ok_0 == Some(payload->Status_0)
            &&& answered && begun is Err ==> begun->Err_0 is UnexpectedWatchResponse
            &&& accepted && response.response is Error ==> begun->Err_0 == ErrorView::Remote(
                response.response->error,
            )
        }),
{
}

/// The first delay is the one that is asked for, but at least a millisecond; the longest
/// is the one that is asked for, but at least the first.
pub proof fn law_delays_are_bounded_from_below(options: WatchOptions)
    ensures
        ({
            let first = client::first_delay(options);
            let longest = client::longest_delay(options);
            &&& options.initial_backoff >= 1_000_000 ==> first == options.initial_backoff
            &&& options.initial_backoff < 1_000_000 ==> first == 1_000_000
            &&& options.max_backoff >= first ==> longest == options.max_backoff
            &&& options.max_backoff < first ==> longest == first
        }),
{
}

/// A delay is doubled, as far as the longest one.
pub proof fn law_delay_is_doubled(delay: u64, maximum: u64)
    ensures
        2 * delay <= maximum ==> client::doubled(delay, maximum) == 2 * delay,
        2 * delay > maximum ==> client::doubled(delay, maximum) == maximum,
{
}

proof fn lemma_first_line(line: Seq<u8>, rest: Seq<u8>)
    requires
        forall|i: int| 0 <= i < line.len() ==> #[trigger] line[i] != '\n' as u8,
    ensures
        record::line_end(line) == line.len(),
        record::line_end(line.push('\n' as u8) + rest) == line.len(),
    decreases line.len(),
{
    let all = line.push('\n' as u8) + rest;
    if line.len() > 0 {
        let shorter = line.drop_first();
        assert forall|i: int| 0 <= i < shorter.len() implies #[trigger] shorter[i]
            != '\n' as u8 by {
            assert(shorter[i] == line[i + 1]);
        }
        lemma_first_line(shorter, rest);
        assert(all[0] == line[0]);
        assert(all.drop_first() =~= shorter.push('\n' as u8) + rest);
    } else {
        assert(all[0] == '\n' as u8);
    }
}

/// What is read up to a line feed, with what was read before, is the line, and what
/// follows is left; a line that is too long is refused.
pub proof fn law_line_is_read_to_its_end(
    record: Seq<u8>,
    line: Seq<u8>,
    rest: Seq<u8>,
    limit: nat,
)
    requires
        forall|i: int| 0 <= i < line.len() ==> #[trigger] line[i] != '\n' as u8,
    ensures
        ({
            let bytes = line.push('\n' as u8) + rest;
            let fits = record.len() + line.len() <= limit;
            &&& fits ==> record::read_bytes(record, bytes, limit) == (LineRead::Line {
                line: record + line,
                rest,
            })
            &&& fits ==> record::read_chunk(record, bytes, limit) == (ChunkRead::Complete {
                line: record + line,
                consumed: (line.len() + 1) as nat,
            })
            &&& !fits ==> record::read_bytes(record, bytes, limit) is TooLarge
            &&& !fits ==> record::read_chunk(record, bytes, limit) is TooLarge
        }),
{
    let bytes = line.push('\n' as u8) + rest;
    lemma_first_line(line, rest);
    assert(bytes.take(line.len() as int) =~= line);
    assert(bytes.skip(line.len() as int + 1) =~= rest);
}

/// Bytes without a line feed are kept for the line, as far as the limit; where no more
/// come, the line has no end.
pub proof fn law_unfinished_line_is_kept(record: Seq<u8>, line: Seq<u8>, limit: nat)
    requires
        forall|i: int| 0 <= i < line.len() ==> #[trigger] line[i] != '\n' as u8,
    ensures
        ({
            let fits = record.len() + line.len() <= limit;
            &&& fits ==> record::read_bytes(record, line, limit) is Ended
            &&& fits && line.len() > 0 ==> record::read_chunk(record, line, limit)
                == (ChunkRead::More { record: record + line })
            &&& !fits ==> record::read_bytes(record, line, limit) is TooLarge
            &&& !fits && line.len() > 0 ==> record::read_chunk(record, line, limit) is TooLarge
            &&& line.len() == 0 ==> record::read_chunk(record, line, limit) is Ended
        }),
{
    lemma_first_line(line, Seq::empty());
}

/// A name is joined to a directory with one slash between them.
pub proof fn law_names_are_joined_with_a_slash(directory: Seq<u8>, name: Seq<char>)
    requires
        directory.len() > 0,
    ensures
        ({
            let path = socket::joined_path(directory, name);
            let bytes = vstd::utf8::encode_utf8(name);
            let closed = directory.last() == '/' as u8;
            &&& closed ==> path == directory + bytes
            &&& !closed ==> path == directory + seq!['/' as u8] + bytes
        }),
{
    assert(directory.push('/' as u8) =~= directory + seq!['/' as u8]);
}

/// A path is absolute exactly where it begins with a slash.
pub proof fn law_absolute_paths_begin_with_a_slash(path: Seq<u8>, name: Seq<char>)
    ensures
        socket::is_absolute(path) <==> path.len() > 0 && path.first() == '/' as u8,
        socket::is_absolute(path) ==> socket::is_absolute(socket::joined_path(path, name)),
{
}

/// Only a socket at an absolute path is connected to, and only a directory there, or
/// nothing yet, is used for it; links are never followed.
pub proof fn law_only_sockets_and_directories_are_used(path: Seq<u8>, kind: FileKind)
    ensures
        ({
            let absolute = path.len() > 0 && path.first() == '/' as u8;
            let socket = socket::existing_socket_problem(path, kind);
            let directory = socket::directory_problem(path, kind);
            &&& socket is None <==> absolute && kind is Socket
            &&& directory is None <==> absolute && (kind is Directory || kind is Missing)
            &&& !absolute ==> socket == Some(ErrorView::RelativePath(path)) && directory == Some(
                ErrorView::RelativePath(path),
            )
            &&& absolute && kind is Symlink ==> socket == Some(ErrorView::Symlink(path))
                && directory == Some(ErrorView::Symlink(path))
            &&& absolute && kind is Missing ==> socket->Some_0 is Io && socket->Some_0->Io_0.kind
                == IoKind::NotFound
            &&& absolute && kind is Directory ==> socket == Some(ErrorView::NotSocket(path))
            &&& absolute && kind is Socket ==> directory == Some(ErrorView::NotDirectory(path))
        }),
{
}

/// A socket is removed exactly where nobody answers on it and it is still the one that
/// was looked at; otherwise it is in use, unless the attempt itself failed.
pub proof fn law_only_stale_sockets_are_removed(before: FileIdentity, probe: Probe)
    ensures
        ({
            let problem = socket::removal_problem(before, probe);
            &&& problem is None <==> probe is Refused && probe->kind is Socket
                && probe->identity == before
            &&& problem is Some && !(probe is Failed) ==> problem->Some_0 is Io
                && problem->Some_0->Io_0.kind == IoKind::AddrInUse
            &&& probe is Failed ==> problem == Some(ErrorView::Io(probe->Failed_0.deep_view()))
        }),
{
}

/// An error shows the path, the limit, the identifiers or the message that it holds.
pub proof fn law_errors_show_what_they_hold(error: ErrorView, path: Seq<u8>)
    ensures
        error is Io ==> error::error_text(error) == error->Io_0.message,
        error is Remote ==> error::error_text(error).len() >= error->Remote_0.message.len()
            && error::error_text(error).skip(
            error::error_text(error).len() - error->Remote_0.message.len(),
        ) == error->Remote_0.message,
        ends_with(error::error_text(ErrorView::RelativePath(path)), encoding::lossy_text(path)),
        ends_with(error::error_text(ErrorView::Symlink(path)), encoding::lossy_text(path)),
        ends_with(error::error_text(ErrorView::NotDirectory(path)), encoding::lossy_text(path)),
        ends_with(error::error_text(ErrorView::NotSocket(path)), encoding::lossy_text(path)),
{
    assert forall|front: Seq<char>, back: Seq<char>| ends_with(#[trigger] (front + back), back) by {
        assert((front + back).skip(front.len() as int) =~= back);
    }
}

/// Whether a text ends with another.
pub open spec fn ends_with(s: Seq<char>, end: Seq<char>) -> bool {
    s.len() >= end.len() && s.skip(s.len() - end.len()) == end
}

} // verus!
