use tramp_rpc::file::{
    bufsize_from_sysconf, expand_tilde, expand_tilde_path, file_attributes, get_file_type, map_io_error,
    nss_step, stat_reply, truename_reply, FileMetadata, FileTypeFlags, NameCache, NssReply,
    NssStep, MAX_NSS_BUFSIZE,
};
use tramp_rpc::protocol::{FileAttributes, FileType, IoErrorInfo, IoErrorKind, RpcError};
use tramp_rpc::value::{Integer, Value};

fn flags() -> FileTypeFlags {
    FileTypeFlags {
        is_file: false,
        is_dir: false,
        is_symlink: false,
        is_char_device: false,
        is_block_device: false,
        is_fifo: false,
        is_socket: false,
    }
}

fn meta(ft: FileTypeFlags) -> FileMetadata {
    FileMetadata {
        file_type: ft,
        nlink: 2,
        uid: 0,
        gid: 0,
        atime: 1,
        mtime: 2,
        ctime: 3,
        len: 4096,
        mode: 0o40755,
        ino: 5,
        dev: 6,
    }
}

fn io_err(kind: IoErrorKind) -> IoErrorInfo {
    IoErrorInfo { kind, raw_os_error: Some(13), message: "boom (os error 13)".to_string() }
}

/// sysconf_bufsize should return the fallback for an invalid argument
/// (`sysconf(-1)` answers -1).
#[test]
fn test_sysconf_bufsize_fallback() {
    let size = bufsize_from_sysconf(-1, 4096);
    assert_eq!(size, 4096, "invalid sysconf should return fallback");
}

#[test]
fn sysconf_bufsize_uses_positive_answer() {
    assert_eq!(bufsize_from_sysconf(16384, 1024), 16384);
    assert_eq!(bufsize_from_sysconf(0, 1024), 1024);
}

#[test]
fn nss_step_grows_buffer_on_range_error() {
    assert_eq!(nss_step(NssReply::RangeError, 1024), NssStep::Retry(2048));
    assert_eq!(nss_step(NssReply::RangeError, 600 * 1024), NssStep::Retry(MAX_NSS_BUFSIZE));
    assert_eq!(nss_step(NssReply::RangeError, MAX_NSS_BUFSIZE / 2), NssStep::Retry(MAX_NSS_BUFSIZE));
    assert_eq!(nss_step(NssReply::RangeError, MAX_NSS_BUFSIZE), NssStep::Finish(None));
}

#[test]
fn nss_step_finishes_on_other_replies() {
    assert_eq!(nss_step(NssReply::Failed, 1024), NssStep::Finish(None));
    assert_eq!(
        nss_step(NssReply::Found(Some("root".to_string())), 1024),
        NssStep::Finish(Some("root".to_string()))
    );
    assert_eq!(nss_step(NssReply::Found(None), 1024), NssStep::Finish(None));
}

#[test]
fn nss_retries_end_at_the_cap() {
    let mut size = 1024usize;
    let mut rounds = 0;
    while let NssStep::Retry(next) = nss_step(NssReply::RangeError, size) {
        assert!(next > size);
        size = next;
        rounds += 1;
    }
    assert_eq!(size, MAX_NSS_BUFSIZE);
    assert_eq!(rounds, 10);
}

#[test]
fn name_cache_returns_recorded_name() {
    let mut cache = NameCache::new();
    assert_eq!(cache.get(1000), None);
    let first = cache.record(1000, Some("alice".to_string()));
    assert_eq!(first, Some("alice".to_string()));
    let second = cache.get(1000);
    assert_eq!(first, second, "cached lookup should match initial lookup");
    assert_eq!(cache.get(1001), None);
}

#[test]
fn name_cache_ignores_failed_lookup() {
    let mut cache = NameCache::new();
    assert_eq!(cache.record(5, None), None);
    assert_eq!(cache.get(5), None);
    cache.record(5, Some("five".to_string()));
    cache.record(5, None);
    assert_eq!(cache.get(5), Some("five".to_string()));
}

#[test]
fn map_io_error_by_kind() {
    let e = map_io_error(io_err(IoErrorKind::NotFound), "/a");
    assert_eq!((e.code, e.message.as_str()), (RpcError::FILE_NOT_FOUND, "File not found: /a"));
    assert!(e.data.is_none());
    let e = map_io_error(io_err(IoErrorKind::PermissionDenied), "/b");
    assert_eq!((e.code, e.message.as_str()), (RpcError::PERMISSION_DENIED, "Permission denied: /b"));
    let e = map_io_error(io_err(IoErrorKind::Other), "/c");
    assert_eq!((e.code, e.message.as_str()), (RpcError::IO_ERROR, "boom (os error 13)"));
    assert_eq!(
        e.data,
        Some(Value::Mapping(vec![(
            Value::String("os_errno".to_string()),
            Value::Integer(Integer::from_u64(13))
        )]))
    );
}

#[test]
fn get_file_type_priority() {
    assert_eq!(get_file_type(&flags()), FileType::Unknown);
    assert_eq!(get_file_type(&FileTypeFlags { is_file: true, is_dir: true, ..flags() }), FileType::File);
    assert_eq!(get_file_type(&FileTypeFlags { is_dir: true, ..flags() }), FileType::Directory);
    assert_eq!(get_file_type(&FileTypeFlags { is_symlink: true, is_fifo: true, ..flags() }), FileType::Symlink);
    assert_eq!(get_file_type(&FileTypeFlags { is_char_device: true, ..flags() }), FileType::CharDevice);
    assert_eq!(get_file_type(&FileTypeFlags { is_block_device: true, ..flags() }), FileType::BlockDevice);
    assert_eq!(get_file_type(&FileTypeFlags { is_fifo: true, ..flags() }), FileType::Fifo);
    assert_eq!(get_file_type(&FileTypeFlags { is_socket: true, ..flags() }), FileType::Socket);
}

#[test]
fn file_attributes_keeps_link_target_only_for_symlinks() {
    let m = meta(FileTypeFlags { is_dir: true, ..flags() });
    let a = file_attributes(&m, Some("x".to_string()), Some("root".to_string()), None);
    assert_eq!(a.file_type, FileType::Directory);
    assert_eq!(a.link_target, None);
    assert_eq!(a.uname, Some("root".to_string()));
    assert_eq!(a.gname, None);
    assert_eq!((a.nlinks, a.size, a.mode, a.inode, a.dev), (2, 4096, 0o40755, 5, 6));
    assert_eq!((a.atime, a.mtime, a.ctime), (1, 2, 3));

    let m = meta(FileTypeFlags { is_symlink: true, ..flags() });
    let a = file_attributes(&m, Some("target".to_string()), None, None);
    assert_eq!(a.file_type, FileType::Symlink);
    assert_eq!(a.link_target, Some("target".to_string()));
    assert_eq!(m.file_type(), FileType::Symlink);
}

fn some_attrs() -> FileAttributes {
    file_attributes(&meta(FileTypeFlags { is_file: true, ..flags() }), None, None, None)
}

#[test]
fn stat_reply_returns_attribute_map() {
    let a = some_attrs();
    let expected = a.to_value();
    assert_eq!(stat_reply(Ok(a)).unwrap(), expected);
}

#[test]
fn stat_reply_missing_file_is_nil() {
    let r = stat_reply(Err(RpcError::file_not_found("/nope")));
    assert_eq!(r.unwrap(), Value::Nil);
}

#[test]
fn stat_reply_other_errors_pass_through() {
    let r = stat_reply(Err(RpcError::permission_denied("/secret")));
    let e = r.unwrap_err();
    assert_eq!(e.code, RpcError::PERMISSION_DENIED);
    assert_eq!(e.message, "Permission denied: /secret");
}

#[test]
fn truename_reply_cases() {
    assert_eq!(truename_reply(Ok(b"/real/path".to_vec()), "~/p").unwrap(), Value::Binary(b"/real/path".to_vec()));
    let e = truename_reply(Err(io_err(IoErrorKind::NotFound)), "/gone").unwrap_err();
    assert_eq!((e.code, e.message.as_str()), (RpcError::FILE_NOT_FOUND, "File not found: /gone"));
}

#[test]
fn expand_tilde_path_cases() {
    let home = Some("/home/u");
    assert_eq!(expand_tilde_path(b"~", home), b"/home/u".to_vec());
    assert_eq!(expand_tilde_path(b"~/docs/a.txt", home), b"/home/u/docs/a.txt".to_vec());
    assert_eq!(expand_tilde_path(b"~/", home), b"/home/u/".to_vec());
    assert_eq!(expand_tilde_path(b"~other/x", home), b"~other/x".to_vec());
    assert_eq!(expand_tilde_path(b"/tmp/~", home), b"/tmp/~".to_vec());
    assert_eq!(expand_tilde_path(b"", home), Vec::<u8>::new());
    assert_eq!(expand_tilde_path(b"~/x", None), b"~/x".to_vec());
    assert_eq!(expand_tilde_path("~/caf\u{e9}".as_bytes(), home), "/home/u/caf\u{e9}".as_bytes().to_vec());
}

#[test]
fn expand_tilde_path_reads_invalid_utf8_lossily() {
    // An expanded path is text: an invalid byte becomes U+FFFD.
    assert_eq!(
        expand_tilde_path(&[0x7e, 0x2f, 0xff], Some("/h")),
        "/h/\u{FFFD}".as_bytes().to_vec()
    );
    // A path that is not expanded keeps its own bytes.
    assert_eq!(expand_tilde_path(&[0x2f, 0xff], Some("/h")), vec![0x2f, 0xff]);
    assert_eq!(expand_tilde_path(&[0x7e, 0xff], Some("/h")), vec![0x7e, 0xff]);
    // `~` as home leaves `~` unchanged, so its own bytes come back.
    assert_eq!(expand_tilde_path(b"~", Some("~")), b"~".to_vec());
}

#[test]
fn expand_tilde_on_text() {
    assert_eq!(expand_tilde("~", Some("/root")), "/root");
    assert_eq!(expand_tilde("~/a/b", Some("/root")), "/root/a/b");
    assert_eq!(expand_tilde("~a", Some("/root")), "~a");
    assert_eq!(expand_tilde("~/a", None), "~/a");
    assert_eq!(expand_tilde("\u{e9}~/a", Some("/root")), "\u{e9}~/a");
}

/// A lookup against `cache` the way the handlers make it: the cached name if
/// there is one, else `answer`, which is then recorded.
fn lookup(cache: &mut NameCache, id: u32, answer: Option<&str>) -> Option<String> {
    if let Some(name) = cache.get(id) {
        return Some(name);
    }
    cache.record(id, answer.map(|a| a.to_string()))
}

#[test]
fn repeated_lookup_matches_first() {
    let mut cache = NameCache::new();
    assert_eq!(lookup(&mut cache, 7, Some("seven")), Some("seven".to_string()));
    // the database now answers differently: the cache wins
    assert_eq!(lookup(&mut cache, 7, Some("other")), Some("seven".to_string()));
    assert_eq!(lookup(&mut cache, 7, None), Some("seven".to_string()));
    // a failed lookup asks again next time
    assert_eq!(lookup(&mut cache, 8, None), None);
    assert_eq!(lookup(&mut cache, 8, Some("eight")), Some("eight".to_string()));
    assert_eq!(lookup(&mut cache, 7, Some("x")), Some("seven".to_string()));
}

#[test]
fn nss_retries_from_one_byte_are_at_most_twenty() {
    let mut size = 1usize;
    let mut retries = 0;
    while let NssStep::Retry(next) = nss_step(NssReply::RangeError, size) {
        size = next;
        retries += 1;
    }
    assert_eq!(retries, 20);
}

/// Repeated lookups should hit the cache and return the same value.
#[test]
fn test_user_name_caching() {
    let mut users = NameCache::new();
    let first = lookup(&mut users, 1000, Some("alice"));
    let second = lookup(&mut users, 1000, Some("alice"));
    assert_eq!(first, second, "cached lookup should match initial lookup");
}

/// Repeated group lookups should hit the cache.
#[test]
fn test_group_name_caching() {
    let mut groups = NameCache::new();
    let first = lookup(&mut groups, 100, Some("users"));
    let second = lookup(&mut groups, 100, Some("users"));
    assert_eq!(first, second, "cached lookup should match initial lookup");
}
