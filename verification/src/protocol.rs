//! MessagePack-RPC protocol types for TRAMP-RPC.
use vstd::prelude::*;

use crate::value::{
    lemma_pair_models_of, pair_models_of, str_value, Integer, IntoValue, Value, ValueModel,
};

verus! {

/// The model of a map entry whose key is the string `name`.
pub open spec fn entry_model(name: Seq<char>, v: ValueModel) -> (ValueModel, ValueModel) {
    (ValueModel::String(name), v)
}

/// A map entry whose key is the string `name`.
pub fn entry(name: &str, v: Value) -> (p: (Value, Value))
    ensures
        p.0@ == ValueModel::String(name@),
        p.1@ == v@,
{
    (str_value(name), v)
}

/// The entry `name => s` when `s` is present, and nothing otherwise.
pub open spec fn optional_entry_model(name: Seq<char>, s: Option<String>) -> Seq<
    (ValueModel, ValueModel),
> {
    match s {
        Some(s) => seq![entry_model(name, ValueModel::String(s@))],
        None => Seq::empty(),
    }
}

/// Default empty params (nil).
pub fn default_params() -> (v: Value)
    ensures
        v@ == ValueModel::Nil,
{
    Value::Nil
}

/// The version string that every response and notification carries.
pub open spec fn protocol_version() -> Seq<char> {
    "2.0"@
}

/// Every response and notification says it speaks version "2.0".
pub proof fn law_protocol_version()
    ensures
        protocol_version() == "2.0"@,
{
}

/// Request ID can be a number or string.
#[derive(Debug, Clone, PartialEq, Eq)]
pub enum RequestId {
    Number(i64),
    String(String),
}

/// RPC request.
#[derive(Debug)]
pub struct Request {
    pub version: String,
    pub id: RequestId,
    pub method: String,
    pub params: Value,
}

/// RPC response.
#[derive(Debug)]
pub struct Response {
    pub version: String,
    pub id: Option<RequestId>,
    pub result: Option<Value>,
    pub error: Option<RpcError>,
}

impl Response {
    /// A successful response to request `id` carrying `result`.
    pub fn success<T: IntoValue>(id: RequestId, result: T) -> (r: Self)
        ensures
            r.version@ == protocol_version(),
            r.id == Some(id),
            r.result matches Some(v) && v@ == result.value_model(),
            r.error is None,
    {
        Response {
            version: "2.0".to_owned(),
            id: Some(id),
            result: Some(result.into_value()),
            error: None,
        }
    }

    /// An error response to request `id` (if known).
    pub fn error(id: Option<RequestId>, error: RpcError) -> (r: Self)
        ensures
            r.version@ == protocol_version(),
            r.id == id,
            r.result is None,
            r.error == Some(error),
    {
        Response { version: "2.0".to_owned(), id, result: None, error: Some(error) }
    }
}

/// RPC error object.
#[derive(Debug)]
pub struct RpcError {
    pub code: i32,
    pub message: String,
    pub data: Option<Value>,
}

/// The kinds of I/O error that the protocol tells apart.
#[derive(Debug, Clone, Copy, PartialEq, Eq)]
pub enum IoErrorKind {
    NotFound,
    PermissionDenied,
    Other,
}

/// An I/O error, as plain values: its kind, the raw OS error number if it came
/// from the OS, and its text.
#[derive(Debug)]
pub struct IoErrorInfo {
    pub kind: IoErrorKind,
    pub raw_os_error: Option<i32>,
    pub message: String,
}

/// The `data` of an I/O error that carries OS error number `errno`.
pub open spec fn os_errno_data(errno: i32) -> ValueModel {
    ValueModel::Mapping(seq![entry_model("os_errno"@, ValueModel::Integer(errno as int))])
}

impl RpcError {
    // Standard RPC error codes
    pub const PARSE_ERROR: i32 = -32700;
    pub const INVALID_REQUEST: i32 = -32600;
    pub const METHOD_NOT_FOUND: i32 = -32601;
    pub const INVALID_PARAMS: i32 = -32602;
    pub const INTERNAL_ERROR: i32 = -32603;

    // Custom error codes for file operations
    pub const FILE_NOT_FOUND: i32 = -32001;
    pub const PERMISSION_DENIED: i32 = -32002;
    pub const IO_ERROR: i32 = -32003;
    pub const PROCESS_ERROR: i32 = -32004;

    pub fn parse_error(msg: String) -> (e: Self)
        ensures
            e.code == Self::PARSE_ERROR,
            e.message == msg,
            e.data is None,
    {
        RpcError { code: Self::PARSE_ERROR, message: msg, data: None }
    }

    pub fn invalid_request(msg: String) -> (e: Self)
        ensures
            e.code == Self::INVALID_REQUEST,
            e.message == msg,
            e.data is None,
    {
        RpcError { code: Self::INVALID_REQUEST, message: msg, data: None }
    }

    pub fn method_not_found(method: &str) -> (e: Self)
        ensures
            e.code == Self::METHOD_NOT_FOUND,
            e.message@ == "Method not found: "@ + method@,
            e.data is None,
    {
        let mut message = "Method not found: ".to_owned();
        message.append(method);
        RpcError { code: Self::METHOD_NOT_FOUND, message, data: None }
    }

    pub fn invalid_params(msg: String) -> (e: Self)
        ensures
            e.code == Self::INVALID_PARAMS,
            e.message == msg,
            e.data is None,
    {
        RpcError { code: Self::INVALID_PARAMS, message: msg, data: None }
    }

    pub fn internal_error(msg: String) -> (e: Self)
        ensures
            e.code == Self::INTERNAL_ERROR,
            e.message == msg,
            e.data is None,
    {
        RpcError { code: Self::INTERNAL_ERROR, message: msg, data: None }
    }

    pub fn file_not_found(path: &str) -> (e: Self)
        ensures
            e.code == Self::FILE_NOT_FOUND,
            e.message@ == "File not found: "@ + path@,
            e.data is None,
    {
        let mut message = "File not found: ".to_owned();
        message.append(path);
        RpcError { code: Self::FILE_NOT_FOUND, message, data: None }
    }

    pub fn permission_denied(path: &str) -> (e: Self)
        ensures
            e.code == Self::PERMISSION_DENIED,
            e.message@ == "Permission denied: "@ + path@,
            e.data is None,
    {
        let mut message = "Permission denied: ".to_owned();
        message.append(path);
        RpcError { code: Self::PERMISSION_DENIED, message, data: None }
    }

    pub fn process_error(msg: String) -> (e: Self)
        ensures
            e.code == Self::PROCESS_ERROR,
            e.message == msg,
            e.data is None,
    {
        RpcError { code: Self::PROCESS_ERROR, message: msg, data: None }
    }

    /// An I/O error, with the raw OS errno (where there is one) in `data` so
    /// that clients can match on it structurally.
    pub fn io_error(err: IoErrorInfo) -> (e: Self)
        ensures
            e.code == Self::IO_ERROR,
            e.message == err.message,
            match err.raw_os_error {
                Some(errno) => e.data matches Some(d) && d@ == os_errno_data(errno),
                None => e.data is None,
            },
    {
        let data = match err.raw_os_error {
            Some(errno) => {
                let pairs = vec![entry("os_errno", Value::Integer(Integer::from_i32(errno)))];
                proof {
                    lemma_pair_models_of(pairs@);
                    assert(pair_models_of(pairs@) =~= seq![
                        entry_model("os_errno"@, ValueModel::Integer(errno as int)),
                    ]);
                }
                Some(Value::Mapping(pairs))
            },
            None => None,
        };
        RpcError { code: Self::IO_ERROR, message: err.message, data }
    }
}

/// Server-initiated notification (no id, no response expected).
#[derive(Debug)]
pub struct Notification {
    pub version: String,
    pub method: String,
    pub params: Value,
}

impl Notification {
    pub fn new(method: String, params: Value) -> (n: Self)
        ensures
            n.version@ == protocol_version(),
            n.method == method,
            n.params == params,
    {
        Notification { version: "2.0".to_owned(), method, params }
    }
}


// ============================================================================
// File operation types
// ============================================================================

/// File type enumeration.
#[derive(Debug, Clone, Copy, PartialEq, Eq, Structural)]
pub enum FileType {
    File,
    Directory,
    Symlink,
    CharDevice,
    BlockDevice,
    Fifo,
    Socket,
    Unknown,
}

impl FileType {
    /// The lowercase name of this file type.
    pub open spec fn name(&self) -> Seq<char> {
        match self {
            FileType::File => "file"@,
            FileType::Directory => "directory"@,
            FileType::Symlink => "symlink"@,
            FileType::CharDevice => "chardevice"@,
            FileType::BlockDevice => "blockdevice"@,
            FileType::Fifo => "fifo"@,
            FileType::Socket => "socket"@,
            FileType::Unknown => "unknown"@,
        }
    }

    /// Return the string representation of this file type.
    pub fn as_str(&self) -> (s: &'static str)
        ensures
            s@ == self.name(),
    {
        match self {
            FileType::File => "file",
            FileType::Directory => "directory",
            FileType::Symlink => "symlink",
            FileType::CharDevice => "chardevice",
            FileType::BlockDevice => "blockdevice",
            FileType::Fifo => "fifo",
            FileType::Socket => "socket",
            FileType::Unknown => "unknown",
        }
    }
}

/// Distinct file types have distinct names, so a file type can be told back
/// from its name.
pub proof fn law_file_type_names_distinct(a: FileType, b: FileType)
    requires
        a != b,
    ensures
        a.name() != b.name(),
{
    reveal_strlit("file");
    reveal_strlit("directory");
    reveal_strlit("symlink");
    reveal_strlit("chardevice");
    reveal_strlit("blockdevice");
    reveal_strlit("fifo");
    reveal_strlit("socket");
    reveal_strlit("unknown");
    let (x, y) = (a.name(), b.name());
    if x.len() == y.len() {
        assert(x[0] != y[0] || x[1] != y[1] || x[2] != y[2] || x[5] != y[5]);
    }
}

/// Each file type is named by its variant's name in lowercase, the form it
/// takes on the wire.
pub proof fn law_file_type_names()
    ensures
        FileType::File.name() == "file"@,
        FileType::Directory.name() == "directory"@,
        FileType::Symlink.name() == "symlink"@,
        FileType::CharDevice.name() == "chardevice"@,
        FileType::BlockDevice.name() == "blockdevice"@,
        FileType::Fifo.name() == "fifo"@,
        FileType::Socket.name() == "socket"@,
        FileType::Unknown.name() == "unknown"@,
{
}

/// File attributes (similar to Emacs file-attributes).
#[derive(Debug)]
pub struct FileAttributes {
    /// File type
    pub file_type: FileType,
    /// Number of hard links
    pub nlinks: u64,
    /// User ID
    pub uid: u32,
    /// Group ID
    pub gid: u32,
    /// User name (resolved from uid)
    pub uname: Option<String>,
    /// Group name (resolved from gid)
    pub gname: Option<String>,
    /// Last access time (seconds since epoch)
    pub atime: i64,
    /// Last modification time (seconds since epoch)
    pub mtime: i64,
    /// Last status change time (seconds since epoch)
    pub ctime: i64,
    /// File size in bytes
    pub size: u64,
    /// File mode (permissions)
    pub mode: u32,
    /// Inode number
    pub inode: u64,
    /// Device number
    pub dev: u64,
    /// Symlink target (if symlink)
    pub link_target: Option<String>,
}

impl FileAttributes {
    /// The entries that every attribute map has, in order.
    pub open spec fn required_entries(&self) -> Seq<(ValueModel, ValueModel)> {
        seq![
            entry_model("type"@, ValueModel::String(self.file_type.name())),
            entry_model("nlinks"@, ValueModel::Integer(self.nlinks as int)),
            entry_model("uid"@, ValueModel::Integer(self.uid as int)),
            entry_model("gid"@, ValueModel::Integer(self.gid as int)),
            entry_model("atime"@, ValueModel::Integer(self.atime as int)),
            entry_model("mtime"@, ValueModel::Integer(self.mtime as int)),
            entry_model("ctime"@, ValueModel::Integer(self.ctime as int)),
            entry_model("size"@, ValueModel::Integer(self.size as int)),
            entry_model("mode"@, ValueModel::Integer(self.mode as int)),
            entry_model("inode"@, ValueModel::Integer(self.inode as int)),
            entry_model("dev"@, ValueModel::Integer(self.dev as int)),
        ]
    }

    /// The map of named fields that `to_value` gives: the required entries,
    /// then `uname`, `gname` and `link_target` where present.
    pub open spec fn value_model(&self) -> ValueModel {
        ValueModel::Mapping(
            self.required_entries() + optional_entry_model("uname"@, self.uname)
                + optional_entry_model("gname"@, self.gname) + optional_entry_model(
                "link_target"@,
                self.link_target,
            ),
        )
    }

    /// Convert to a MessagePack value with named fields (map instead of array).
    pub fn to_value(&self) -> (v: Value)
        ensures
            v@ == self.value_model(),
    {
        let mut pairs: Vec<(Value, Value)> = Vec::new();
        pairs.push(entry("type", str_value(self.file_type.as_str())));
        pairs.push(entry("nlinks", Value::Integer(Integer::from_u64(self.nlinks))));
        pairs.push(entry("uid", Value::Integer(Integer::from_u32(self.uid))));
        pairs.push(entry("gid", Value::Integer(Integer::from_u32(self.gid))));
        pairs.push(entry("atime", Value::Integer(Integer::from_i64(self.atime))));
        pairs.push(entry("mtime", Value::Integer(Integer::from_i64(self.mtime))));
        pairs.push(entry("ctime", Value::Integer(Integer::from_i64(self.ctime))));
        pairs.push(entry("size", Value::Integer(Integer::from_u64(self.size))));
        pairs.push(entry("mode", Value::Integer(Integer::from_u32(self.mode))));
        pairs.push(entry("inode", Value::Integer(Integer::from_u64(self.inode))));
        pairs.push(entry("dev", Value::Integer(Integer::from_u64(self.dev))));
        proof {
            lemma_pair_models_of(pairs@);
            assert(pair_models_of(pairs@) =~= self.required_entries());
        }
        let ghost before_optional = pairs@;
        if let Some(uname) = &self.uname {
            pairs.push(entry("uname", Value::String(uname.clone())));
        }
        let ghost after_uname = pairs@;
        if let Some(gname) = &self.gname {
            pairs.push(entry("gname", Value::String(gname.clone())));
        }
        let ghost after_gname = pairs@;
        if let Some(link_target) = &self.link_target {
            pairs.push(entry("link_target", Value::String(link_target.clone())));
        }
        proof {
            lemma_pair_models_of(before_optional);
            lemma_pair_models_of(after_uname);
            lemma_pair_models_of(after_gname);
            lemma_pair_models_of(pairs@);
            assert(pair_models_of(after_uname) =~= self.required_entries()
                + optional_entry_model("uname"@, self.uname));
            assert(pair_models_of(after_gname) =~= self.required_entries()
                + optional_entry_model("uname"@, self.uname) + optional_entry_model(
                "gname"@,
                self.gname,
            ));
            assert(pair_models_of(pairs@) =~= self.required_entries() + optional_entry_model(
                "uname"@,
                self.uname,
            ) + optional_entry_model("gname"@, self.gname) + optional_entry_model(
                "link_target"@,
                self.link_target,
            ));
        }
        Value::Mapping(pairs)
    }
}

/// The keys of a map model are pairwise distinct.
pub open spec fn keys_distinct(m: ValueModel) -> bool {
    m matches ValueModel::Mapping(pairs) && forall|i: int, j: int|
        0 <= i < j < pairs.len() ==> #[trigger] pairs[i].0 != #[trigger] pairs[j].0
}

/// The attribute map of a file names each field once.
pub proof fn law_file_attribute_keys_distinct(a: FileAttributes)
    ensures
        keys_distinct(a.value_model()),
{
    reveal_strlit("type");
    reveal_strlit("nlinks");
    reveal_strlit("uid");
    reveal_strlit("gid");
    reveal_strlit("atime");
    reveal_strlit("mtime");
    reveal_strlit("ctime");
    reveal_strlit("size");
    reveal_strlit("mode");
    reveal_strlit("inode");
    reveal_strlit("dev");
    reveal_strlit("uname");
    reveal_strlit("gname");
    reveal_strlit("link_target");
    let pairs = a.required_entries() + optional_entry_model("uname"@, a.uname)
        + optional_entry_model("gname"@, a.gname) + optional_entry_model(
        "link_target"@,
        a.link_target,
    );
    assert forall|i: int, j: int| 0 <= i < j < pairs.len() implies pairs[i].0 != pairs[j].0 by {
        let (x, y) = (pairs[i].0, pairs[j].0);
        if let (ValueModel::String(p), ValueModel::String(q)) = (x, y) {
            if p.len() == q.len() {
                assert(p[0] != q[0] || p[1] != q[1]);
            }
        }
    }
}

/// The entries of a map (none for anything else).
pub open spec fn entries(m: ValueModel) -> Seq<(ValueModel, ValueModel)> {
    match m {
        ValueModel::Mapping(pairs) => pairs,
        _ => Seq::empty(),
    }
}

/// `m` is a map that holds the entry `key => v`.
pub open spec fn has_entry(m: ValueModel, key: Seq<char>, v: ValueModel) -> bool {
    &&& m is Mapping
    &&& exists|i: int|
        0 <= i < entries(m).len() && #[trigger] entries(m)[i] == (ValueModel::String(key), v)
}

/// `m` is a map with no entry under `key`.
pub open spec fn lacks_key(m: ValueModel, key: Seq<char>) -> bool {
    &&& m is Mapping
    &&& forall|i: int|
        0 <= i < entries(m).len() ==> #[trigger] entries(m)[i].0 != ValueModel::String(key)
}

/// The number of entries of a map (0 for anything else).
pub open spec fn entry_count(m: ValueModel) -> int {
    entries(m).len() as int
}

/// What the attribute map of a file holds: each attribute under its own name,
/// and each of `uname`, `gname` and `link_target` exactly when that field is
/// present, whatever the other fields are.
pub proof fn law_file_attributes_entries(a: FileAttributes)
    ensures
        has_entry(a.value_model(), "type"@, ValueModel::String(a.file_type.name())),
        has_entry(a.value_model(), "nlinks"@, ValueModel::Integer(a.nlinks as int)),
        has_entry(a.value_model(), "uid"@, ValueModel::Integer(a.uid as int)),
        has_entry(a.value_model(), "gid"@, ValueModel::Integer(a.gid as int)),
        has_entry(a.value_model(), "atime"@, ValueModel::Integer(a.atime as int)),
        has_entry(a.value_model(), "mtime"@, ValueModel::Integer(a.mtime as int)),
        has_entry(a.value_model(), "ctime"@, ValueModel::Integer(a.ctime as int)),
        has_entry(a.value_model(), "size"@, ValueModel::Integer(a.size as int)),
        has_entry(a.value_model(), "mode"@, ValueModel::Integer(a.mode as int)),
        has_entry(a.value_model(), "inode"@, ValueModel::Integer(a.inode as int)),
        has_entry(a.value_model(), "dev"@, ValueModel::Integer(a.dev as int)),
        a.uname matches Some(u) ==> has_entry(a.value_model(), "uname"@, ValueModel::String(u@)),
        a.uname is None ==> lacks_key(a.value_model(), "uname"@),
        a.gname matches Some(g) ==> has_entry(a.value_model(), "gname"@, ValueModel::String(g@)),
        a.gname is None ==> lacks_key(a.value_model(), "gname"@),
        a.link_target matches Some(t) ==> has_entry(
            a.value_model(),
            "link_target"@,
            ValueModel::String(t@),
        ),
        a.link_target is None ==> lacks_key(a.value_model(), "link_target"@),
        entry_count(a.value_model()) == 11 + (if a.uname is Some {
            1int
        } else {
            0
        }) + (if a.gname is Some {
            1int
        } else {
            0
        }) + (if a.link_target is Some {
            1int
        } else {
            0
        }),
{
    reveal_strlit("type");
    reveal_strlit("nlinks");
    reveal_strlit("uid");
    reveal_strlit("gid");
    reveal_strlit("atime");
    reveal_strlit("mtime");
    reveal_strlit("ctime");
    reveal_strlit("size");
    reveal_strlit("mode");
    reveal_strlit("inode");
    reveal_strlit("dev");
    reveal_strlit("uname");
    reveal_strlit("gname");
    reveal_strlit("link_target");
    let req = a.required_entries();
    let pu = optional_entry_model("uname"@, a.uname);
    let pg = optional_entry_model("gname"@, a.gname);
    let pl = optional_entry_model("link_target"@, a.link_target);
    let pairs = entries(a.value_model());
    assert(pairs == req + pu + pg + pl);
    let nu: int = if a.uname is Some { 1 } else { 0 };
    let ng: int = if a.gname is Some { 1 } else { 0 };
    assert(pairs.len() >= 11);
    assert(pairs[0] == entry_model("type"@, ValueModel::String(a.file_type.name())));
    assert(pairs[1] == entry_model("nlinks"@, ValueModel::Integer(a.nlinks as int)));
    assert(pairs[2] == entry_model("uid"@, ValueModel::Integer(a.uid as int)));
    assert(pairs[3] == entry_model("gid"@, ValueModel::Integer(a.gid as int)));
    assert(pairs[4] == entry_model("atime"@, ValueModel::Integer(a.atime as int)));
    assert(pairs[5] == entry_model("mtime"@, ValueModel::Integer(a.mtime as int)));
    assert(pairs[6] == entry_model("ctime"@, ValueModel::Integer(a.ctime as int)));
    assert(pairs[7] == entry_model("size"@, ValueModel::Integer(a.size as int)));
    assert(pairs[8] == entry_model("mode"@, ValueModel::Integer(a.mode as int)));
    assert(pairs[9] == entry_model("inode"@, ValueModel::Integer(a.inode as int)));
    assert(pairs[10] == entry_model("dev"@, ValueModel::Integer(a.dev as int)));
    if let Some(u) = a.uname {
        assert(pairs[11] == entry_model("uname"@, ValueModel::String(u@)));
    }
    if let Some(g) = a.gname {
        assert(pairs[11 + nu] == entry_model("gname"@, ValueModel::String(g@)));
    }
    if let Some(t) = a.link_target {
        assert(pairs[11 + nu + ng] == entry_model("link_target"@, ValueModel::String(t@)));
    }
    // Keys that differ from `key` in length or in one of their first two
    // characters are not `key`.
    assert forall|i: int| 0 <= i < pairs.len() implies {
        &&& a.uname is None ==> pairs[i].0 != ValueModel::String("uname"@)
        &&& a.gname is None ==> pairs[i].0 != ValueModel::String("gname"@)
        &&& a.link_target is None ==> pairs[i].0 != ValueModel::String("link_target"@)
    } by {
        if let ValueModel::String(p) = pairs[i].0 {
            if a.uname is None && p.len() == 5 {
                assert(p[0] != 'u' || p[1] != 'n');
            }
            if a.gname is None && p.len() == 5 {
                assert(p[0] != 'g' || p[1] != 'n');
            }
            if a.link_target is None && p.len() == 11 {
                assert(p[0] != 'l');
            }
        }
    }
}

/// Directory entry; the file name is raw bytes (binary in MessagePack).
#[derive(Debug)]
pub struct DirEntry {
    /// Filename as raw bytes
    pub name: Vec<u8>,
    pub file_type: FileType,
    pub attrs: Option<FileAttributes>,
}

impl DirEntry {
    /// The map of named fields that `to_value` gives.
    pub open spec fn value_model(&self) -> ValueModel {
        ValueModel::Mapping(
            seq![
                entry_model("name"@, ValueModel::Binary(self.name@)),
                entry_model("type"@, ValueModel::String(self.file_type.name())),
            ] + match self.attrs {
                Some(a) => seq![entry_model("attrs"@, a.value_model())],
                None => Seq::empty(),
            },
        )
    }

    /// Convert to a MessagePack value with named fields.
    pub fn to_value(&self) -> (v: Value)
        ensures
            v@ == self.value_model(),
    {
        let mut pairs: Vec<(Value, Value)> = Vec::new();
        pairs.push(entry("name", Value::Binary(self.name.clone())));
        pairs.push(entry("type", str_value(self.file_type.as_str())));
        if let Some(attrs) = &self.attrs {
            pairs.push(entry("attrs", attrs.to_value()));
        }
        proof {
            lemma_pair_models_of(pairs@);
            assert(pair_models_of(pairs@) =~= seq![
                entry_model("name"@, ValueModel::Binary(self.name@)),
                entry_model("type"@, ValueModel::String(self.file_type.name())),
            ] + match self.attrs {
                Some(a) => seq![entry_model("attrs"@, a.value_model())],
                None => Seq::empty(),
            });
        }
        Value::Mapping(pairs)
    }
}

// ============================================================================
// Process operation types
// ============================================================================

/// Process execution result; output is raw bytes.
#[derive(Debug)]
pub struct ProcessResult {
    pub exit_code: i32,
    /// stdout content as raw bytes
    pub stdout: Vec<u8>,
    /// stderr content as raw bytes
    pub stderr: Vec<u8>,
}

impl ProcessResult {
    /// The map of named fields that `to_value` gives.
    pub open spec fn value_model(&self) -> ValueModel {
        ValueModel::Mapping(
            seq![
                entry_model("exit_code"@, ValueModel::Integer(self.exit_code as int)),
                entry_model("stdout"@, ValueModel::Binary(self.stdout@)),
                entry_model("stderr"@, ValueModel::Binary(self.stderr@)),
            ],
        )
    }

    /// Convert to a MessagePack value with named fields.
    pub fn to_value(&self) -> (v: Value)
        ensures
            v@ == self.value_model(),
    {
        let pairs = vec![
            entry("exit_code", Value::Integer(Integer::from_i32(self.exit_code))),
            entry("stdout", Value::Binary(self.stdout.clone())),
            entry("stderr", Value::Binary(self.stderr.clone())),
        ];
        proof {
            lemma_pair_models_of(pairs@);
            assert(pair_models_of(pairs@) =~= seq![
                entry_model("exit_code"@, ValueModel::Integer(self.exit_code as int)),
                entry_model("stdout"@, ValueModel::Binary(self.stdout@)),
                entry_model("stderr"@, ValueModel::Binary(self.stderr@)),
            ]);
        }
        Value::Mapping(pairs)
    }
}

/// How a child process ended, as plain values: its exit code if it exited
/// normally, the signal that ended it if the platform reports one, and the raw
/// wait status.
#[derive(Debug, Clone, Copy, PartialEq, Eq)]
pub struct ExitStatusInfo {
    pub code: Option<i32>,
    pub signal: Option<i32>,
    pub raw: i32,
}

/// The exit code that a process status stands for: its own code when it exited
/// normally; `128 + n` when signal `n` ended it (from the reported signal, else
/// from the raw wait status); `-1` otherwise.
pub open spec fn spec_exit_code(status: ExitStatusInfo) -> int {
    match status.code {
        Some(code) => code as int,
        None => match status.signal {
            Some(sig) => 128 + sig,
            None => {
                let termsig = status.raw % 128;
                if termsig != 0 && termsig != 127 {
                    128 + termsig
                } else {
                    -1
                }
            },
        },
    }
}

/// Extract an exit code from a process status.
///
/// Signal-killed processes have no exit code: by convention they give
/// `128 + signal_number` (e.g. SIGKILL = 9 gives 137).
pub fn exit_code_from_status(status: ExitStatusInfo) -> (code: i32)
    requires
        status.code is None ==> (status.signal matches Some(sig) ==> sig <= i32::MAX - 128),
    ensures
        code == spec_exit_code(status),
        status.code matches Some(c) ==> code == c,
        status.code is None ==> (status.signal matches Some(n) ==> code == 128 + n),
{
    // Normal exit
    if let Some(code) = status.code {
        return code;
    }
    // Primary: the reported signal
    if let Some(sig) = status.signal {
        return 128 + sig;
    }
    // Fallback: the raw wait status (WIFSIGNALED)
    let raw = status.raw;
    let termsig = raw & 0x7f;
    assert(termsig == raw % 128 && 0 <= termsig < 128) by (bit_vector)
        requires
            termsig == raw & 0x7f,
    ;
    if termsig != 0 && termsig != 0x7f {
        return 128 + termsig;
    }
    -1
}

/// The exit code of a finished process: its own code when it exited
/// normally; `128 + n` when signal `n` ended it; from the raw wait status when
/// no signal is reported, `128 + t` for a terminating signal `t` (the low seven
/// bits, neither 0 nor 0x7f) and `-1` otherwise.
pub proof fn law_exit_code(status: ExitStatusInfo)
    ensures
        status.code matches Some(c) ==> spec_exit_code(status) == c,
        status.code is None ==> (status.signal matches Some(n) ==> spec_exit_code(status) == 128 + n),
        status.code is None && status.signal is None ==> {
            let t = status.raw & 0x7f;
            spec_exit_code(status) == if t != 0 && t != 0x7f {
                128 + t
            } else {
                -1
            }
        },
{
    let raw = status.raw;
    let t = raw & 0x7f;
    assert(t == raw % 128) by (bit_vector)
        requires
            t == raw & 0x7f,
    ;
}

/// The map of a process result holds the exit code and both outputs, each
/// exactly as given, whatever the others are.
pub proof fn law_process_result_entries(r: ProcessResult)
    ensures
        has_entry(r.value_model(), "exit_code"@, ValueModel::Integer(r.exit_code as int)),
        has_entry(r.value_model(), "stdout"@, ValueModel::Binary(r.stdout@)),
        has_entry(r.value_model(), "stderr"@, ValueModel::Binary(r.stderr@)),
        entry_count(r.value_model()) == 3,
{
    let pairs = entries(r.value_model());
    assert(pairs[0] == entry_model("exit_code"@, ValueModel::Integer(r.exit_code as int)));
    assert(pairs[1] == entry_model("stdout"@, ValueModel::Binary(r.stdout@)));
    assert(pairs[2] == entry_model("stderr"@, ValueModel::Binary(r.stderr@)));
}

/// The map of a directory entry holds its name (bytes) and its type's name,
/// in that order; then, for any file type, its attribute map exactly when the
/// entry has attributes.
pub proof fn law_dir_entry_entries(e: DirEntry)
    ensures
        entries(e.value_model())[0] == (ValueModel::String("name"@), ValueModel::Binary(e.name@)),
        entries(e.value_model())[1] == (
            ValueModel::String("type"@),
            ValueModel::String(e.file_type.name()),
        ),
        e.attrs matches Some(a) ==> entry_count(e.value_model()) == 3 && entries(e.value_model())[2]
            == (ValueModel::String("attrs"@), a.value_model()),
        e.attrs is None ==> entry_count(e.value_model()) == 2,
        e.value_model() is Mapping,
{
}

/// The `data` of an I/O error that carries OS error number `errno` is a map
/// with the single entry `os_errno => errno`.
pub proof fn law_os_errno_data(errno: i32)
    ensures
        has_entry(os_errno_data(errno), "os_errno"@, ValueModel::Integer(errno as int)),
        entry_count(os_errno_data(errno)) == 1,
{
    assert(entries(os_errno_data(errno))[0] == entry_model(
        "os_errno"@,
        ValueModel::Integer(errno as int),
    ));
}

} // verus!
