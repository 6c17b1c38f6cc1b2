//! Where the control socket is, and when a path may be used for it.
use crate::ipc::error::{Error, ErrorView, IoFailure, IoFailureView, IoKind};
use vstd::prelude::*;
use vstd::slice::slice_to_vec;

verus! {

/// The directory of the socket below the runtime directory.
pub const SOCKET_DIRECTORY: &'static str = "omarchy-lightsync";

/// The file name of the socket.
pub const SOCKET_NAME: &'static str = "control.sock";

/// The permissions of the directory of the socket.
pub const DIRECTORY_MODE: u32 = 0o700;

/// The permissions of the socket.
pub const SOCKET_MODE: u32 = 0o600;

/// Whether a path is absolute.
pub open spec fn is_absolute(path: Seq<u8>) -> bool {
    path.len() > 0 && path[0] == 47
}

/// A path with a relative path behind it.
pub open spec fn joined_path(directory: Seq<u8>, name: Seq<char>) -> Seq<u8> {
    let bytes = vstd::utf8::encode_utf8(name);
    if directory.len() > 0 && directory.last() != 47 {
        directory.push(47u8) + bytes
    } else {
        directory + bytes
    }
}

/// Joins a path and a relative path.
pub fn join_path(directory: &Vec<u8>, name: &str) -> (r: Vec<u8>)
    ensures
        r@ == joined_path(directory@, name@),
{
    let mut r: Vec<u8> = slice_to_vec(directory.as_slice());
    let length: usize = r.len();
    if length > 0 && r[length - 1] != 47 {
        r.push(47);
    }
    let bytes: &[u8] = name.as_bytes();
    let ghost before = r@;
    r.extend_from_slice(bytes);
    assert(r@ =~= before + bytes@);
    r
}

/// Refuses a path that is not absolute.
pub fn require_absolute(path: &[u8]) -> (r: Result<(), Error>)
    ensures
        r is Ok <==> is_absolute(path@),
        r matches Err(error) ==> error.deep_view() == ErrorView::RelativePath(path@),
{
    if path.len() > 0 && path[0] == 47 {
        return Ok(());
    }
    let copy: Vec<u8> = slice_to_vec(path);
    assert(copy.deep_view() =~= path@);
    Err(Error::RelativePath(copy))
}

/// The path of the socket below a runtime directory.
pub open spec fn socket_path(runtime_dir: Seq<u8>) -> Seq<u8> {
    joined_path(joined_path(runtime_dir, SOCKET_DIRECTORY@), SOCKET_NAME@)
}

/// Resolves the path of the socket from the value of `XDG_RUNTIME_DIR`.
pub fn socket_path_for_runtime_dir(runtime_dir: Option<&[u8]>) -> (r: Result<Vec<u8>, Error>)
    ensures
        runtime_dir is None || runtime_dir->Some_0@.len() == 0 ==> r == Err::<Vec<u8>, Error>(
            Error::RuntimeDirMissing,
        ),
        runtime_dir matches Some(path) ==> path@.len() > 0 ==> {
            &&& r is Ok <==> is_absolute(path@)
            &&& r matches Ok(socket) ==> socket@ == socket_path(path@)
            &&& r matches Err(error) ==> error.deep_view() == ErrorView::RelativePath(path@)
        },
{
    let path: &[u8] = match runtime_dir {
        Some(path) => path,
        None => return Err(Error::RuntimeDirMissing),
    };
    if path.len() == 0 {
        return Err(Error::RuntimeDirMissing);
    }
    match require_absolute(path) {
        Ok(()) => {},
        Err(error) => return Err(error),
    }
    let directory: Vec<u8> = join_path(&slice_to_vec(path), SOCKET_DIRECTORY);
    Ok(join_path(&directory, SOCKET_NAME))
}

/// What stands at a path, links not followed.
#[derive(Clone, Copy, Debug, PartialEq, Eq, Structural)]
pub enum FileKind {
    Missing,
    Symlink,
    Directory,
    Socket,
    Other,
}

/// A file's place on disk.
#[derive(Clone, Copy, Debug, PartialEq, Eq, Structural)]
pub struct FileIdentity {
    pub device: u64,
    pub inode: u64,
}

fn path_copy(path: &[u8]) -> (r: Vec<u8>)
    ensures
        r.deep_view() == path@,
{
    let r: Vec<u8> = slice_to_vec(path);
    assert(r.deep_view() =~= path@);
    r
}

/// What a client that finds this at the path of a socket is told.
pub open spec fn existing_socket_problem(path: Seq<u8>, kind: FileKind) -> Option<ErrorView> {
    if !is_absolute(path) {
        Some(ErrorView::RelativePath(path))
    } else {
        match kind {
            FileKind::Socket => None,
            FileKind::Symlink => Some(ErrorView::Symlink(path)),
            FileKind::Missing => Some(
                ErrorView::Io(
                    IoFailureView { kind: IoKind::NotFound, message: "socket does not exist"@ },
                ),
            ),
            _ => Some(ErrorView::NotSocket(path)),
        }
    }
}

/// A client connects to a socket only: not through a link, not to anything else.
pub fn validate_existing_socket(path: &[u8], kind: FileKind) -> (r: Result<(), Error>)
    ensures
        r is Ok <==> existing_socket_problem(path@, kind) is None,
        r matches Err(error) ==> Some(error.deep_view()) == existing_socket_problem(path@, kind),
{
    match require_absolute(path) {
        Ok(()) => {},
        Err(error) => return Err(error),
    }
    match kind {
        FileKind::Socket => Ok(()),
        FileKind::Symlink => Err(Error::Symlink(path_copy(path))),
        FileKind::Missing => Err(
            Error::Io(
                IoFailure { kind: IoKind::NotFound, message: "socket does not exist".to_owned() },
            ),
        ),
        FileKind::Directory | FileKind::Other => Err(Error::NotSocket(path_copy(path))),
    }
}

/// What stands against a directory for the socket.
pub open spec fn directory_problem(path: Seq<u8>, kind: FileKind) -> Option<ErrorView> {
    if !is_absolute(path) {
        Some(ErrorView::RelativePath(path))
    } else {
        match kind {
            FileKind::Directory | FileKind::Missing => None,
            FileKind::Symlink => Some(ErrorView::Symlink(path)),
            _ => Some(ErrorView::NotDirectory(path)),
        }
    }
}

/// Whether the directory of the socket has to be created, or can be used as it
/// is; either way its permissions are set.
pub fn secure_directory(path: &[u8], kind: FileKind) -> (r: Result<bool, Error>)
    ensures
        r is Ok <==> directory_problem(path@, kind) is None,
        r matches Ok(create) ==> create == (kind is Missing),
        r matches Err(error) ==> Some(error.deep_view()) == directory_problem(path@, kind),
{
    match require_absolute(path) {
        Ok(()) => {},
        Err(error) => return Err(error),
    }
    match kind {
        FileKind::Directory => Ok(false),
        FileKind::Missing => Ok(true),
        FileKind::Symlink => Err(Error::Symlink(path_copy(path))),
        FileKind::Socket | FileKind::Other => Err(Error::NotDirectory(path_copy(path))),
    }
}

/// What a connection to a socket that may be stale came to.
#[derive(Debug, PartialEq, Eq)]
pub enum Probe {
    /// Something answered.
    Connected,
    /// Nothing listens; what stands at the path now.
    Refused { kind: FileKind, identity: FileIdentity },
    /// It failed in another way.
    Failed(IoFailure),
}

/// Whether the path of a socket has to be probed before a server binds it.
pub fn needs_probe(path: &[u8], kind: FileKind) -> (r: Result<bool, Error>)
    ensures
        r is Ok <==> kind is Missing || kind is Socket,
        r matches Ok(probe) ==> probe == (kind is Socket),
        r matches Err(error) ==> error.deep_view() == if kind is Symlink {
            ErrorView::Symlink(path@)
        } else {
            ErrorView::NotSocket(path@)
        },
{
    match kind {
        FileKind::Missing => Ok(false),
        FileKind::Socket => Ok(true),
        FileKind::Symlink => Err(Error::Symlink(path_copy(path))),
        FileKind::Directory | FileKind::Other => Err(Error::NotSocket(path_copy(path))),
    }
}

/// What stands against the removal of a socket that was probed.
pub open spec fn removal_problem(before: FileIdentity, probe: Probe) -> Option<ErrorView> {
    match probe {
        Probe::Connected => Some(
            ErrorView::Io(
                IoFailureView {
                    kind: IoKind::AddrInUse,
                    message: "a daemon is already listening on the socket"@,
                },
            ),
        ),
        Probe::Refused { kind, identity } => if kind == FileKind::Socket && identity == before {
            None
        } else {
            Some(
                ErrorView::Io(
                    IoFailureView {
                        kind: IoKind::AddrInUse,
                        message: "socket path changed while checking whether it was stale"@,
                    },
                ),
            )
        },
        Probe::Failed(failure) => Some(ErrorView::Io(failure.deep_view())),
    }
}

/// Whether a socket may be removed: only one at which nothing listens, and only
/// while it is still the one that was found.
pub fn may_remove(before: FileIdentity, probe: Probe) -> (r: Result<(), Error>)
    ensures
        r is Ok <==> removal_problem(before, probe) is None,
        r matches Err(error) ==> Some(error.deep_view()) == removal_problem(before, probe),
{
    match probe {
        Probe::Connected => Err(
            Error::Io(
                IoFailure {
                    kind: IoKind::AddrInUse,
                    message: "a daemon is already listening on the socket".to_owned(),
                },
            ),
        ),
        Probe::Refused { kind, identity } => if kind == FileKind::Socket && identity == before {
            Ok(())
        } else {
            Err(
                Error::Io(
                    IoFailure {
                        kind: IoKind::AddrInUse,
                        message: "socket path changed while checking whether it was stale"
                            .to_owned(),
                    },
                ),
            )
        },
        Probe::Failed(failure) => Err(Error::Io(failure)),
    }
}

/// Whether a server that ends removes what stands at its path: only the socket
/// that it created.
pub fn owns_socket(created: FileIdentity, kind: FileKind, current: FileIdentity) -> (r: bool)
    ensures
        r == (kind is Socket && current == created),
{
    kind == FileKind::Socket && current == created
}

/// A socket at which something listens is never removed, and neither is one
/// that took another's place.
pub proof fn law_live_socket_is_kept(before: FileIdentity, probe: Probe)
    ensures
        probe is Connected ==> removal_problem(before, probe) is Some,
        removal_problem(before, probe) is None ==> probe == (Probe::Refused {
            kind: FileKind::Socket,
            identity: before,
        }),
{
}

/// The socket of an absolute runtime directory has an absolute path below it.
pub proof fn law_socket_path_is_absolute(runtime_dir: Seq<u8>)
    requires
        is_absolute(runtime_dir),
    ensures
        is_absolute(socket_path(runtime_dir)),
        runtime_dir.is_prefix_of(socket_path(runtime_dir)),
{
}

} // verus!
