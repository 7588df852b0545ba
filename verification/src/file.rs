//! File metadata operations: the decisions the file handlers make around
//! the system calls they perform.
use std::collections::HashMap;
use vstd::prelude::*;

use crate::protocol::{FileAttributes, FileType, IoErrorInfo, IoErrorKind, RpcError};
use crate::value::{Value, ValueModel};

verus! {

/// What a handler answers: a result value or an RPC error.
pub type HandlerResult = Result<Value, RpcError>;

// ============================================================================
// Errors
// ============================================================================

/// `e` is the RPC error that an I/O error `err` on `path` maps to.
pub open spec fn is_mapped_io_error(err: IoErrorInfo, path: Seq<char>, e: RpcError) -> bool {
    match err.kind {
        IoErrorKind::NotFound => {
            &&& e.code == RpcError::FILE_NOT_FOUND
            &&& e.message@ == "File not found: "@ + path
            &&& e.data is None
        },
        IoErrorKind::PermissionDenied => {
            &&& e.code == RpcError::PERMISSION_DENIED
            &&& e.message@ == "Permission denied: "@ + path
            &&& e.data is None
        },
        IoErrorKind::Other => {
            &&& e.code == RpcError::IO_ERROR
            &&& e.message == err.message
            &&& match err.raw_os_error {
                Some(errno) => e.data matches Some(d) && d@ == crate::protocol::os_errno_data(errno),
                None => e.data is None,
            }
        },
    }
}

/// Map an I/O error on `path` to an RPC error: a missing file and a refused
/// permission get their own codes, any other error is reported as an I/O error.
pub fn map_io_error(err: IoErrorInfo, path: &str) -> (e: RpcError)
    ensures
        is_mapped_io_error(err, path@, e),
{
    match err.kind {
        IoErrorKind::NotFound => RpcError::file_not_found(path),
        IoErrorKind::PermissionDenied => RpcError::permission_denied(path),
        IoErrorKind::Other => RpcError::io_error(err),
    }
}

/// How an I/O error on `path` is reported: a missing file as
/// `FILE_NOT_FOUND` with "File not found: <path>", a refused permission as
/// `PERMISSION_DENIED` with "Permission denied: <path>", any other error as
/// `IO_ERROR` with the error's own text and (where there is one) its OS error
/// number in `data`.
pub proof fn law_io_error_reports(err: IoErrorInfo, path: Seq<char>, e: RpcError)
    requires
        is_mapped_io_error(err, path, e),
    ensures
        err.kind == IoErrorKind::NotFound ==> e.code == -32001 && e.message@ == "File not found: "@
            + path && e.data is None,
        err.kind == IoErrorKind::PermissionDenied ==> e.code == -32002 && e.message@
            == "Permission denied: "@ + path && e.data is None,
        err.kind == IoErrorKind::Other ==> e.code == -32003 && e.message == err.message,
        err.kind == IoErrorKind::Other ==> (err.raw_os_error is None <==> e.data is None),
        err.kind == IoErrorKind::Other ==> (err.raw_os_error matches Some(errno) ==> (e.data matches Some(
            d,
        ) && crate::protocol::has_entry(d@, "os_errno"@, ValueModel::Integer(errno as int))
            && crate::protocol::entry_count(d@) == 1)),
{
    if let Some(errno) = err.raw_os_error {
        crate::protocol::law_os_errno_data(errno);
    }
}

/// Only a missing file maps to `FILE_NOT_FOUND`: so `file.stat` answers nil
/// for a missing file, while a refused permission or any other I/O error is
/// reported as an error.
pub proof fn law_only_missing_files_map_to_not_found(err: IoErrorInfo, path: Seq<char>, e: RpcError)
    requires
        is_mapped_io_error(err, path, e),
    ensures
        e.code == RpcError::FILE_NOT_FOUND <==> err.kind == IoErrorKind::NotFound,
{
}

// ============================================================================
// Metadata
// ============================================================================

/// The file-type tests of a file's metadata, as plain values.
#[derive(Debug, Clone, Copy, PartialEq, Eq)]
pub struct FileTypeFlags {
    pub is_file: bool,
    pub is_dir: bool,
    pub is_symlink: bool,
    pub is_char_device: bool,
    pub is_block_device: bool,
    pub is_fifo: bool,
    pub is_socket: bool,
}

/// The file type that the first test which holds names, in the order file,
/// directory, symlink, char device, block device, fifo, socket.
pub open spec fn spec_file_type(ft: FileTypeFlags) -> FileType {
    if ft.is_file {
        FileType::File
    } else if ft.is_dir {
        FileType::Directory
    } else if ft.is_symlink {
        FileType::Symlink
    } else if ft.is_char_device {
        FileType::CharDevice
    } else if ft.is_block_device {
        FileType::BlockDevice
    } else if ft.is_fifo {
        FileType::Fifo
    } else if ft.is_socket {
        FileType::Socket
    } else {
        FileType::Unknown
    }
}

/// A file's type is the first of file, directory, symlink, char device, block
/// device, fifo and socket whose test holds, and unknown when none holds.
pub proof fn law_file_type_order(ft: FileTypeFlags)
    ensures
        ft.is_file ==> spec_file_type(ft) == FileType::File,
        !ft.is_file && ft.is_dir ==> spec_file_type(ft) == FileType::Directory,
        !ft.is_file && !ft.is_dir && ft.is_symlink ==> spec_file_type(ft) == FileType::Symlink,
        !ft.is_file && !ft.is_dir && !ft.is_symlink && ft.is_char_device ==> spec_file_type(ft)
            == FileType::CharDevice,
        !ft.is_file && !ft.is_dir && !ft.is_symlink && !ft.is_char_device && ft.is_block_device
            ==> spec_file_type(ft) == FileType::BlockDevice,
        !ft.is_file && !ft.is_dir && !ft.is_symlink && !ft.is_char_device && !ft.is_block_device
            && ft.is_fifo ==> spec_file_type(ft) == FileType::Fifo,
        !ft.is_file && !ft.is_dir && !ft.is_symlink && !ft.is_char_device && !ft.is_block_device
            && !ft.is_fifo && ft.is_socket ==> spec_file_type(ft) == FileType::Socket,
        !ft.is_file && !ft.is_dir && !ft.is_symlink && !ft.is_char_device && !ft.is_block_device
            && !ft.is_fifo && !ft.is_socket ==> spec_file_type(ft) == FileType::Unknown,
{
}

/// The file type of a file, from its metadata's file-type tests.
pub fn get_file_type(ft: &FileTypeFlags) -> (t: FileType)
    ensures
        t == spec_file_type(*ft),
{
    if ft.is_file {
        FileType::File
    } else if ft.is_dir {
        FileType::Directory
    } else if ft.is_symlink {
        FileType::Symlink
    } else if ft.is_char_device {
        FileType::CharDevice
    } else if ft.is_block_device {
        FileType::BlockDevice
    } else if ft.is_fifo {
        FileType::Fifo
    } else if ft.is_socket {
        FileType::Socket
    } else {
        FileType::Unknown
    }
}

/// A file's metadata, as plain values.
#[derive(Debug, Clone, Copy, PartialEq, Eq)]
pub struct FileMetadata {
    pub file_type: FileTypeFlags,
    pub nlink: u64,
    pub uid: u32,
    pub gid: u32,
    pub atime: i64,
    pub mtime: i64,
    pub ctime: i64,
    pub len: u64,
    pub mode: u32,
    pub ino: u64,
    pub dev: u64,
}

impl FileMetadata {
    /// The type of the file that this metadata describes.
    pub fn file_type(&self) -> (t: FileType)
        ensures
            t == spec_file_type(self.file_type),
    {
        get_file_type(&self.file_type)
    }
}

/// The attributes of a file with metadata `meta`, the resolved names of its
/// owner and group, and (for a symlink) the target it points to. The target is
/// kept only where the file is a symlink.
pub fn file_attributes(
    meta: &FileMetadata,
    link_target: Option<String>,
    uname: Option<String>,
    gname: Option<String>,
) -> (a: FileAttributes)
    ensures
        a.file_type == spec_file_type(meta.file_type),
        a.nlinks == meta.nlink,
        a.uid == meta.uid,
        a.gid == meta.gid,
        a.uname == uname,
        a.gname == gname,
        a.atime == meta.atime,
        a.mtime == meta.mtime,
        a.ctime == meta.ctime,
        a.size == meta.len,
        a.mode == meta.mode,
        a.inode == meta.ino,
        a.dev == meta.dev,
        a.link_target == (if a.file_type == FileType::Symlink {
            link_target
        } else {
            None
        }),
{
    let file_type = meta.file_type();
    let link_target = if file_type == FileType::Symlink {
        link_target
    } else {
        None
    };
    FileAttributes {
        file_type,
        nlinks: meta.nlink,
        uid: meta.uid,
        gid: meta.gid,
        uname,
        gname,
        atime: meta.atime,
        mtime: meta.mtime,
        ctime: meta.ctime,
        size: meta.len,
        mode: meta.mode,
        inode: meta.ino,
        dev: meta.dev,
        link_target,
    }
}

// ============================================================================
// Handler replies
// ============================================================================

/// The reply of `file.stat` once the attributes were looked up: the attribute
/// map; nil for a file that does not exist; any other error unchanged.
pub fn stat_reply(looked_up: Result<FileAttributes, RpcError>) -> (r: HandlerResult)
    ensures
        match looked_up {
            Ok(attrs) => r matches Ok(v) && v@ == attrs.value_model(),
            Err(e) => if e.code == RpcError::FILE_NOT_FOUND {
                r matches Ok(v) && v@ == ValueModel::Nil
            } else {
                r == Err::<Value, RpcError>(e)
            },
        },
{
    match looked_up {
        Ok(attrs) => Ok(attrs.to_value()),
        Err(e) => {
            if e.code == RpcError::FILE_NOT_FOUND {
                Ok(Value::Nil)
            } else {
                Err(e)
            }
        },
    }
}

/// The reply of `file.truename` once the path `path` was resolved: the
/// canonical path as binary, or the mapped I/O error.
pub fn truename_reply(resolved: Result<Vec<u8>, IoErrorInfo>, path: &str) -> (r: HandlerResult)
    ensures
        match resolved {
            Ok(bytes) => r matches Ok(v) && v@ == ValueModel::Binary(bytes@),
            Err(err) => r matches Err(e) && is_mapped_io_error(err, path@, e),
        },
{
    match resolved {
        Ok(bytes) => Ok(Value::Binary(bytes)),
        Err(err) => Err(map_io_error(err, path)),
    }
}


// ============================================================================
// User and group names
// ============================================================================

/// The buffer size to start a name lookup with, from what `sysconf` returned:
/// its answer when positive, `fallback` otherwise.
pub fn bufsize_from_sysconf(ret: isize, fallback: usize) -> (size: usize)
    ensures
        size == (if ret > 0 {
            ret as int
        } else {
            fallback as int
        }),
        fallback > 0 ==> size > 0,
{
    if ret > 0 {
        ret as usize
    } else {
        fallback
    }
}

/// Maximum buffer size a name lookup attempts before giving up (1 MiB).
pub const MAX_NSS_BUFSIZE: usize = 1048576;

/// What one `getpwuid_r` / `getgrgid_r` call reported.
#[derive(Debug, PartialEq, Eq)]
pub enum NssReply {
    /// The buffer was too small (`ERANGE`).
    RangeError,
    /// Any other error, or no entry for the id.
    Failed,
    /// An entry was found; its name, where it is valid UTF-8.
    Found(Option<String>),
}

/// What a name lookup does next.
#[derive(Debug, PartialEq, Eq)]
pub enum NssStep {
    /// Call again with a buffer of this size.
    Retry(usize),
    /// Stop, with this name.
    Finish(Option<String>),
}

/// The buffer size after a too-small one of `bufsize`: doubled (saturating),
/// capped at `MAX_NSS_BUFSIZE`.
pub open spec fn grown_bufsize(bufsize: int) -> int {
    if 2 * bufsize <= MAX_NSS_BUFSIZE {
        2 * bufsize
    } else {
        MAX_NSS_BUFSIZE as int
    }
}

/// The next step of a name lookup after a call with a buffer of `bufsize`
/// bytes reported `reply`: a too-small buffer is grown and the call retried
/// until the buffer reaches `MAX_NSS_BUFSIZE`; any failure gives no name.
pub fn nss_step(reply: NssReply, bufsize: usize) -> (step: NssStep)
    ensures
        match reply {
            NssReply::RangeError => if bufsize < MAX_NSS_BUFSIZE {
                step matches NssStep::Retry(n) && n == grown_bufsize(bufsize as int)
            } else {
                step == NssStep::Finish(None)
            },
            NssReply::Failed => step == NssStep::Finish(None),
            NssReply::Found(name) => step == NssStep::Finish(name),
        },
        step matches NssStep::Retry(n) ==> n <= MAX_NSS_BUFSIZE && (bufsize > 0 ==> bufsize < n),
{
    match reply {
        NssReply::RangeError => {
            if bufsize < MAX_NSS_BUFSIZE {
                let grown = if bufsize <= MAX_NSS_BUFSIZE / 2 {
                    bufsize * 2
                } else {
                    MAX_NSS_BUFSIZE
                };
                NssStep::Retry(grown)
            } else {
                NssStep::Finish(None)
            }
        },
        NssReply::Failed => NssStep::Finish(None),
        NssReply::Found(name) => NssStep::Finish(name),
    }
}

/// A too-small buffer is doubled, or set to the 1 MiB cap where doubling
/// would pass it.
pub proof fn law_buffer_growth(bufsize: int)
    requires
        0 < bufsize < MAX_NSS_BUFSIZE,
    ensures
        bufsize * 2 <= 1048576 ==> grown_bufsize(bufsize) == bufsize * 2,
        bufsize * 2 > 1048576 ==> grown_bufsize(bufsize) == 1048576,
{
}

/// How many times a lookup whose buffer of `bufsize` bytes keeps being too
/// small is retried before it gives up at `MAX_NSS_BUFSIZE`.
pub open spec fn range_error_retries(bufsize: int) -> nat
    decreases MAX_NSS_BUFSIZE - bufsize,
    when bufsize > 0
{
    if bufsize >= MAX_NSS_BUFSIZE {
        0
    } else {
        1 + range_error_retries(grown_bufsize(bufsize))
    }
}

/// From a buffer of `bufsize` bytes with `bufsize * 2^k >= MAX_NSS_BUFSIZE`,
/// at most `k` retries follow.
proof fn lemma_retries_within(bufsize: int, k: nat)
    requires
        bufsize > 0,
        bufsize * vstd::arithmetic::power2::pow2(k) >= MAX_NSS_BUFSIZE,
    ensures
        range_error_retries(bufsize) <= k,
    decreases k,
{
    if bufsize < MAX_NSS_BUFSIZE {
        if k == 0 {
            vstd::arithmetic::power2::lemma2_to64();
            assert(false);
        } else {
            let p = vstd::arithmetic::power2::pow2((k - 1) as nat);
            vstd::arithmetic::power2::lemma_pow2_unfold(k);
            assert(bufsize * vstd::arithmetic::power2::pow2(k) == (2 * bufsize) * p) by (nonlinear_arith)
                requires
                    vstd::arithmetic::power2::pow2(k) == 2 * p,
            ;
            let g = grown_bufsize(bufsize);
            if g == MAX_NSS_BUFSIZE {
                vstd::arithmetic::power2::lemma_pow2_pos((k - 1) as nat);
                assert(g * p >= MAX_NSS_BUFSIZE) by (nonlinear_arith)
                    requires
                        g == MAX_NSS_BUFSIZE,
                        p > 0,
                ;
            }
            lemma_retries_within(g, (k - 1) as nat);
        }
    }
}

/// A name lookup makes at most 21 calls: starting from any positive buffer
/// size, a buffer that keeps being too small is grown at most 20 times before
/// the lookup gives up at 1 MiB.
pub proof fn law_lookup_retries_bounded(bufsize: usize)
    requires
        bufsize > 0,
    ensures
        range_error_retries(bufsize as int) <= 20,
{
    vstd::arithmetic::power2::lemma2_to64();
    assert(bufsize * vstd::arithmetic::power2::pow2(20) >= MAX_NSS_BUFSIZE) by (nonlinear_arith)
        requires
            bufsize >= 1,
            vstd::arithmetic::power2::pow2(20) == 1048576,
    ;
    lemma_retries_within(bufsize as int, 20);
}

/// A cache of resolved names, keyed by user or group id.
#[derive(Debug)]
pub struct NameCache {
    names: HashMap<u32, String>,
}

impl View for NameCache {
    type V = Map<u32, Seq<char>>;

    closed spec fn view(&self) -> Map<u32, Seq<char>> {
        self.names@.map_values(|s: String| s@)
    }
}

/// What a cache with contents `m` gives back for `id`.
pub open spec fn cached_name(m: Map<u32, Seq<char>>, id: u32) -> Option<Seq<char>> {
    if m.contains_key(id) {
        Some(m[id])
    } else {
        None
    }
}

/// The contents of a cache with contents `m` after `id` resolved to `name`:
/// a found name is remembered, a failed lookup leaves the cache unchanged.
pub open spec fn after_lookup(m: Map<u32, Seq<char>>, id: u32, name: Option<Seq<char>>) -> Map<
    u32,
    Seq<char>,
> {
    match name {
        Some(n) => m.insert(id, n),
        None => m,
    }
}

/// The view of an optional string.
pub open spec fn opt_view(s: Option<String>) -> Option<Seq<char>> {
    match s {
        Some(s) => Some(s@),
        None => None,
    }
}

impl NameCache {
    /// An empty cache.
    pub fn new() -> (c: Self)
        ensures
            c@ == Map::<u32, Seq<char>>::empty(),
    {
        let c = NameCache { names: HashMap::new() };
        assert(c@ =~= Map::<u32, Seq<char>>::empty());
        c
    }

    /// The cached name of `id`, if any: the first step of a lookup, which asks
    /// the name database only where this gives `None` (see `lookup_answer`).
    pub fn get(&self, id: u32) -> (r: Option<String>)
        ensures
            opt_view(r) == cached_name(self@, id),
    {
        match self.names.get(&id) {
            Some(name) => Some(name.clone()),
            None => None,
        }
    }

    /// Remember what the name database answered for `id`; gives the name back.
    /// The last step of a lookup that found nothing cached (see
    /// `cache_after_lookup`).
    pub fn record(&mut self, id: u32, name: Option<String>) -> (r: Option<String>)
        ensures
            final(self)@ == after_lookup(old(self)@, id, opt_view(name)),
            r == name,
    {
        if let Some(n) = &name {
            self.names.insert(id, n.clone());
            proof {
                assert(self@ =~= old(self)@.insert(id, n@));
            }
        }
        name
    }
}

/// A lookup that was just recorded is what the cache then gives back for its
/// id: a found name, or (for a failed lookup) whatever was cached before.
pub proof fn law_cache_returns_recorded(m: Map<u32, Seq<char>>, id: u32, name: Option<Seq<char>>)
    ensures
        name is Some ==> cached_name(after_lookup(m, id, name), id) == name,
        name is None ==> cached_name(after_lookup(m, id, name), id) == cached_name(m, id),
{
}

/// Recording a lookup of one id leaves what the cache gives for every other id
/// unchanged.
pub proof fn law_cache_other_ids_unchanged(
    m: Map<u32, Seq<char>>,
    id: u32,
    name: Option<Seq<char>>,
    other: u32,
)
    requires
        other != id,
    ensures
        cached_name(after_lookup(m, id, name), other) == cached_name(m, other),
{
}

/// The name that a lookup of `id` gives, against a cache with contents `m`,
/// when the name database would answer `answer`: the cached name if there is
/// one; the database's answer otherwise.
pub open spec fn lookup_answer(m: Map<u32, Seq<char>>, id: u32, answer: Option<Seq<char>>) -> Option<
    Seq<char>,
> {
    match cached_name(m, id) {
        Some(n) => Some(n),
        None => answer,
    }
}

/// The cache contents after that lookup: a cached name is used as it is (the
/// database is not asked); otherwise the database's answer is recorded.
pub open spec fn cache_after_lookup(
    m: Map<u32, Seq<char>>,
    id: u32,
    answer: Option<Seq<char>>,
) -> Map<u32, Seq<char>> {
    match cached_name(m, id) {
        Some(_) => m,
        None => after_lookup(m, id, answer),
    }
}

/// The cache contents after the lookups `lookups` (each an id and what the
/// database would answer), in order.
pub open spec fn cache_after_lookups(
    m: Map<u32, Seq<char>>,
    lookups: Seq<(u32, Option<Seq<char>>)>,
) -> Map<u32, Seq<char>>
    decreases lookups.len(),
{
    if lookups.len() == 0 {
        m
    } else {
        cache_after_lookups(cache_after_lookup(m, lookups[0].0, lookups[0].1), lookups.skip(1))
    }
}

/// Two lookups of one id: once the first found a name, the second gives the
/// same name, whatever the database would answer then; after a first lookup
/// that found none, the second asks the database again.
pub proof fn law_repeated_lookup(
    m: Map<u32, Seq<char>>,
    id: u32,
    first_answer: Option<Seq<char>>,
    second_answer: Option<Seq<char>>,
)
    ensures
        ({
            let first = lookup_answer(m, id, first_answer);
            let second = lookup_answer(cache_after_lookup(m, id, first_answer), id, second_answer);
            &&& first is Some ==> second == first
            &&& first is None ==> second == second_answer
        }),
{
}

/// A resolved name is kept: once a lookup of `id` gave `Some(n)`, every later
/// lookup of `id`, after any lookups of any ids in between, gives `Some(n)`.
pub proof fn law_resolved_name_kept(
    m: Map<u32, Seq<char>>,
    id: u32,
    answer: Option<Seq<char>>,
    n: Seq<char>,
    between: Seq<(u32, Option<Seq<char>>)>,
    later_answer: Option<Seq<char>>,
)
    requires
        lookup_answer(m, id, answer) == Some(n),
    ensures
        lookup_answer(
            cache_after_lookups(cache_after_lookup(m, id, answer), between),
            id,
            later_answer,
        ) == Some(n),
{
    lemma_cached_name_kept(cache_after_lookup(m, id, answer), id, n, between);
}

/// A cached name stays cached through any lookups.
proof fn lemma_cached_name_kept(
    m: Map<u32, Seq<char>>,
    id: u32,
    n: Seq<char>,
    lookups: Seq<(u32, Option<Seq<char>>)>,
)
    requires
        cached_name(m, id) == Some(n),
    ensures
        cached_name(cache_after_lookups(m, lookups), id) == Some(n),
    decreases lookups.len(),
{
    if lookups.len() > 0 {
        let m1 = cache_after_lookup(m, lookups[0].0, lookups[0].1);
        assert(cached_name(m1, id) == Some(n));
        lemma_cached_name_kept(m1, id, n, lookups.skip(1));
    }
}

// ============================================================================
// Paths
// ============================================================================

/// What `String::from_utf8_lossy` makes of `bytes`: their UTF-8 text, each
/// invalid sequence replaced by U+FFFD.
pub uninterp spec fn utf8_lossy(bytes: Seq<u8>) -> Seq<char>;

/// `String::from_utf8_lossy`, made into an owned `String`. Its result is named
/// `utf8_lossy` of the bytes; where the bytes are valid UTF-8, it is the text
/// they encode (as std documents). How invalid sequences are replaced is left
/// to the name.
#[verifier::external_body]
fn string_from_utf8_lossy(bytes: &[u8]) -> (s: String)
    ensures
        s@ == utf8_lossy(bytes@),
        vstd::utf8::valid_utf8(bytes@) ==> s@ == vstd::utf8::decode_utf8(bytes@),
{
    String::from_utf8_lossy(bytes).into_owned()
}

/// A path with a leading `~` replaced by the home directory: `~` alone becomes
/// `home`, `~/rest` becomes `home/rest`; any other path, or any path when no
/// home directory is known, stays as it is.
pub open spec fn spec_expand_tilde(path: Seq<char>, home: Option<Seq<char>>) -> Seq<char> {
    match home {
        Some(h) => if path == seq!['~'] {
            h
        } else if path.len() >= 2 && path[0] == '~' && path[1] == '/' {
            h + path.skip(1)
        } else {
            path
        },
        None => path,
    }
}

/// Expanding `~`: with no home directory, or for a path that does not start
/// with `~`, the path is kept; `~` alone becomes the home directory; `~/` and
/// what follows becomes the home directory, then `/` and what follows.
pub proof fn law_expand_tilde(path: Seq<char>, home: Option<Seq<char>>, rest: Seq<char>)
    ensures
        home is None ==> spec_expand_tilde(path, home) == path,
        (path.len() == 0 || path[0] != '~') ==> spec_expand_tilde(path, home) == path,
        home matches Some(h) ==> spec_expand_tilde(seq!['~'], home) == h,
        home matches Some(h) ==> spec_expand_tilde(seq!['~', '/'] + rest, home) == h + seq!['/']
            + rest,
        (path.len() >= 2 && path[0] == '~' && path[1] != '/') ==> spec_expand_tilde(path, home)
            == path,
{
    if let Some(h) = home {
        let p = seq!['~', '/'] + rest;
        assert(p.skip(1) =~= seq!['/'] + rest);
        assert(p != seq!['~']) by {
            assert(p.len() != 1);
        }
    }
    if path.len() >= 2 && path[0] == '~' && path[1] != '/' {
        assert(path != seq!['~']) by {
            assert(path.len() != 1);
        }
    }
}

/// The view of an optional string slice.
pub open spec fn opt_str_view(s: Option<&str>) -> Option<Seq<char>> {
    match s {
        Some(s) => Some(s@),
        None => None,
    }
}

/// Expand `~` to the home directory `home` in the path `path`.
pub fn expand_tilde(path: &str, home: Option<&str>) -> (r: String)
    ensures
        r@ == spec_expand_tilde(path@, opt_str_view(home)),
{
    match home {
        Some(h) => {
            let n = path.unicode_len();
            if n >= 1 && path.get_char(0) == '~' && (n == 1 || path.get_char(1) == '/') {
                let mut out = h.to_owned();
                out.append(path.substring_char(1, n));
                proof {
                    assert(path@.subrange(1, n as int) =~= path@.skip(1));
                    if n == 1 {
                        assert(path@ =~= seq!['~']);
                        assert(out@ =~= h@);
                    } else {
                        assert(path@ != seq!['~']);
                    }
                }
                out
            } else {
                proof {
                    if n == 1 {
                        assert(path@ != seq!['~']) by {
                            assert(seq!['~'][0] == '~');
                        }
                    }
                }
                path.to_owned()
            }
        },
        None => path.to_owned(),
    }
}

/// A path (raw bytes) with `~` expanded: the path is read as UTF-8 text
/// (invalid sequences become U+FFFD) and expanded as text; where that changes
/// the text, the result is the UTF-8 encoding of the expanded text, otherwise
/// the path's own bytes.
pub open spec fn spec_expand_tilde_path(path: Seq<u8>, home: Option<Seq<char>>) -> Seq<u8> {
    let text = utf8_lossy(path);
    let expanded = spec_expand_tilde(text, home);
    if expanded != text {
        vstd::utf8::encode_utf8(expanded)
    } else {
        path
    }
}

/// A path that `~` expansion changes comes out as valid UTF-8 that decodes to
/// the expanded text of the path (read lossily); a path it leaves as text is
/// kept byte for byte.
pub proof fn law_expanded_path_is_text(path: Seq<u8>, home: Option<Seq<char>>)
    ensures
        ({
            let text = utf8_lossy(path);
            let expanded = spec_expand_tilde(text, home);
            &&& expanded != text ==> vstd::utf8::valid_utf8(spec_expand_tilde_path(path, home))
                && vstd::utf8::decode_utf8(spec_expand_tilde_path(path, home)) == expanded
            &&& expanded == text ==> spec_expand_tilde_path(path, home) == path
        }),
{
    let expanded = spec_expand_tilde(utf8_lossy(path), home);
    vstd::utf8::encode_utf8_valid_utf8(expanded);
    vstd::utf8::encode_utf8_decode_utf8(expanded);
}

/// Expand `~` to the home directory `home` in the path `path` (raw bytes),
/// through the string-based `expand_tilde`.
pub fn expand_tilde_path(path: &[u8], home: Option<&str>) -> (r: Vec<u8>)
    ensures
        r@ == spec_expand_tilde_path(path@, opt_str_view(home)),
{
    let text = string_from_utf8_lossy(path);
    let expanded = expand_tilde(text.as_str(), home);
    if expanded == text {
        vstd::slice::slice_to_vec(path)
    } else {
        expanded.as_str().as_bytes_vec()
    }
}

} // verus!
