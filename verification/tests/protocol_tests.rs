use tramp_rpc::protocol::{
    default_params, exit_code_from_status, DirEntry, ExitStatusInfo, FileAttributes, FileType,
    IoErrorInfo, IoErrorKind, Notification, ProcessResult, RequestId, Response, RpcError,
};
use tramp_rpc::value::{str_value, Integer, IntoValue, Value};

fn s(x: &str) -> Value {
    Value::String(x.to_string())
}

fn pos(n: u64) -> Value {
    Value::Integer(Integer::from_u64(n))
}

fn sample_attrs() -> FileAttributes {
    FileAttributes {
        file_type: FileType::File,
        nlinks: 1,
        uid: 1000,
        gid: 100,
        uname: None,
        gname: None,
        atime: 10,
        mtime: 20,
        ctime: -30,
        size: 4,
        mode: 0o100644,
        inode: 77,
        dev: 2049,
        link_target: None,
    }
}

fn required_pairs() -> Vec<(Value, Value)> {
    vec![
        (s("type"), s("file")),
        (s("nlinks"), pos(1)),
        (s("uid"), pos(1000)),
        (s("gid"), pos(100)),
        (s("atime"), pos(10)),
        (s("mtime"), pos(20)),
        (s("ctime"), Value::Integer(Integer::from_i64(-30))),
        (s("size"), pos(4)),
        (s("mode"), pos(0o100644)),
        (s("inode"), pos(77)),
        (s("dev"), pos(2049)),
    ]
}

#[test]
fn file_type_as_str_names_each_type() {
    assert_eq!(FileType::File.as_str(), "file");
    assert_eq!(FileType::Directory.as_str(), "directory");
    assert_eq!(FileType::Symlink.as_str(), "symlink");
    assert_eq!(FileType::CharDevice.as_str(), "chardevice");
    assert_eq!(FileType::BlockDevice.as_str(), "blockdevice");
    assert_eq!(FileType::Fifo.as_str(), "fifo");
    assert_eq!(FileType::Socket.as_str(), "socket");
    assert_eq!(FileType::Unknown.as_str(), "unknown");
}

#[test]
fn file_attributes_to_value_required_fields_only() {
    let attrs = sample_attrs();
    assert_eq!(attrs.to_value(), Value::Mapping(required_pairs()));
}

#[test]
fn file_attributes_to_value_optional_fields_in_order() {
    let mut attrs = sample_attrs();
    attrs.file_type = FileType::Symlink;
    attrs.uname = Some("alice".to_string());
    attrs.gname = Some("users".to_string());
    attrs.link_target = Some("/etc/hosts".to_string());
    let mut expected = required_pairs();
    expected[0] = (s("type"), s("symlink"));
    expected.push((s("uname"), s("alice")));
    expected.push((s("gname"), s("users")));
    expected.push((s("link_target"), s("/etc/hosts")));
    assert_eq!(attrs.to_value(), Value::Mapping(expected));
}

#[test]
fn file_attributes_to_value_skips_missing_uname() {
    let mut attrs = sample_attrs();
    attrs.gname = Some("wheel".to_string());
    let mut expected = required_pairs();
    expected.push((s("gname"), s("wheel")));
    assert_eq!(attrs.to_value(), Value::Mapping(expected));
}

#[test]
fn dir_entry_to_value_with_and_without_attrs() {
    let entry = DirEntry { name: vec![0x66, 0xff], file_type: FileType::Directory, attrs: None };
    assert_eq!(
        entry.to_value(),
        Value::Mapping(vec![(s("name"), Value::Binary(vec![0x66, 0xff])), (s("type"), s("directory"))])
    );
    let entry = DirEntry { name: b"a".to_vec(), file_type: FileType::File, attrs: Some(sample_attrs()) };
    assert_eq!(
        entry.to_value(),
        Value::Mapping(vec![
            (s("name"), Value::Binary(b"a".to_vec())),
            (s("type"), s("file")),
            (s("attrs"), Value::Mapping(required_pairs())),
        ])
    );
}

#[test]
fn process_result_to_value() {
    let r = ProcessResult { exit_code: -1, stdout: b"out".to_vec(), stderr: vec![] };
    assert_eq!(
        r.to_value(),
        Value::Mapping(vec![
            (s("exit_code"), Value::Integer(Integer::from_i64(-1))),
            (s("stdout"), Value::Binary(b"out".to_vec())),
            (s("stderr"), Value::Binary(vec![])),
        ])
    );
}

#[test]
fn rpc_error_codes_and_messages() {
    assert_eq!(RpcError::PARSE_ERROR, -32700);
    assert_eq!(RpcError::INVALID_REQUEST, -32600);
    assert_eq!(RpcError::METHOD_NOT_FOUND, -32601);
    assert_eq!(RpcError::INVALID_PARAMS, -32602);
    assert_eq!(RpcError::INTERNAL_ERROR, -32603);
    assert_eq!(RpcError::FILE_NOT_FOUND, -32001);
    assert_eq!(RpcError::PERMISSION_DENIED, -32002);
    assert_eq!(RpcError::IO_ERROR, -32003);
    assert_eq!(RpcError::PROCESS_ERROR, -32004);

    let e = RpcError::method_not_found("file.frobnicate");
    assert_eq!(e.code, RpcError::METHOD_NOT_FOUND);
    assert_eq!(e.message, "Method not found: file.frobnicate");
    assert!(e.data.is_none());

    let e = RpcError::file_not_found("/no/such");
    assert_eq!(e.code, -32001);
    assert_eq!(e.message, "File not found: /no/such");

    let e = RpcError::permission_denied("/root/x");
    assert_eq!(e.code, -32002);
    assert_eq!(e.message, "Permission denied: /root/x");

    let e = RpcError::parse_error("bad bytes".to_string());
    assert_eq!((e.code, e.message.as_str()), (-32700, "bad bytes"));
    let e = RpcError::invalid_request("no id".to_string());
    assert_eq!((e.code, e.message.as_str()), (-32600, "no id"));
    let e = RpcError::invalid_params("missing path".to_string());
    assert_eq!((e.code, e.message.as_str()), (-32602, "missing path"));
    let e = RpcError::internal_error("oops".to_string());
    assert_eq!((e.code, e.message.as_str()), (-32603, "oops"));
    let e = RpcError::process_error("spawn failed".to_string());
    assert_eq!((e.code, e.message.as_str()), (-32004, "spawn failed"));
}

#[test]
fn io_error_carries_os_errno() {
    let e = RpcError::io_error(IoErrorInfo {
        kind: IoErrorKind::Other,
        raw_os_error: Some(21),
        message: "Is a directory (os error 21)".to_string(),
    });
    assert_eq!(e.code, RpcError::IO_ERROR);
    assert_eq!(e.message, "Is a directory (os error 21)");
    assert_eq!(e.data, Some(Value::Mapping(vec![(s("os_errno"), pos(21))])));

    let e = RpcError::io_error(IoErrorInfo {
        kind: IoErrorKind::Other,
        raw_os_error: None,
        message: "custom".to_string(),
    });
    assert_eq!(e.data, None);
    assert_eq!(e.message, "custom");
}

#[test]
fn response_success_and_error() {
    let r = Response::success(RequestId::Number(7), 42u64);
    assert_eq!(r.version, "2.0");
    assert_eq!(r.id, Some(RequestId::Number(7)));
    assert_eq!(r.result, Some(pos(42)));
    assert!(r.error.is_none());

    let r = Response::error(Some(RequestId::String("a".to_string())), RpcError::method_not_found("m"));
    assert_eq!(r.version, "2.0");
    assert_eq!(r.id, Some(RequestId::String("a".to_string())));
    assert!(r.result.is_none());
    assert_eq!(r.error.as_ref().map(|e| e.code), Some(-32601));

    let r = Response::error(None, RpcError::parse_error("x".to_string()));
    assert!(r.id.is_none());
}

#[test]
fn notification_new() {
    let n = Notification::new("file.changed".to_string(), Value::Boolean(true));
    assert_eq!(n.version, "2.0");
    assert_eq!(n.method, "file.changed");
    assert_eq!(n.params, Value::Boolean(true));
}

#[test]
fn default_params_is_nil() {
    assert_eq!(default_params(), Value::Nil);
}

#[test]
fn into_value_conversions() {
    assert_eq!(true.into_value(), Value::Boolean(true));
    assert_eq!((-5i32).into_value(), Value::Integer(Integer::from_i64(-5)));
    assert_eq!(5i32.into_value(), pos(5));
    assert_eq!(i64::MIN.into_value(), Value::Integer(Integer::from_i64(i64::MIN)));
    assert_eq!(9i64.into_value(), pos(9));
    assert_eq!(u32::MAX.into_value(), pos(u32::MAX as u64));
    assert_eq!(u64::MAX.into_value(), pos(u64::MAX));
    assert_eq!(3usize.into_value(), pos(3));
    assert_eq!("hi".to_string().into_value(), s("hi"));
    assert_eq!("hi".into_value(), s("hi"));
    assert_eq!(vec![1u8, 2].into_value(), Value::Binary(vec![1, 2]));
    assert_eq!(
        vec!["a".to_string(), "b".to_string()].into_value(),
        Value::Array(vec![s("a"), s("b")])
    );
    assert_eq!(Vec::<String>::new().into_value(), Value::Array(vec![]));
    assert_eq!(Some(4u32).into_value(), pos(4));
    assert_eq!(None::<u32>.into_value(), Value::Nil);
    assert_eq!(Value::Nil.into_value(), Value::Nil);
    assert_eq!(str_value("k"), s("k"));
}

#[test]
fn integer_constructors() {
    assert_eq!(Integer::from_i64(0), Integer::from_u64(0));
    assert_eq!(Integer::from_i64(0).as_u64(), Some(0));
    assert_eq!(Integer::from_i64(-1).as_u64(), None);
    assert_eq!(Integer::from_i64(-1).as_i64(), Some(-1));
    assert_eq!(Integer::from_i32(i32::MIN).as_i64(), Some(i32::MIN as i64));
    assert_eq!(Integer::from_u32(7), Integer::from_i64(7));
    assert_eq!(Integer::from_i32(7), Integer::from_u64(7));
    assert_eq!(Integer::from_u64(u64::MAX).as_u64(), Some(u64::MAX));
    assert_eq!(Integer::from_u64(u64::MAX).as_i64(), None);
    assert_eq!(Integer::from_u64(i64::MAX as u64).as_i64(), Some(i64::MAX));
}

#[test]
fn into_value_more_conversions() {
    assert_eq!(200u8.into_value(), pos(200));
    assert_eq!(60000u16.into_value(), pos(60000));
    assert_eq!((-8i8).into_value(), Value::Integer(Integer::from_i64(-8)));
    assert_eq!((-300i16).into_value(), Value::Integer(Integer::from_i64(-300)));
    assert_eq!((-2isize).into_value(), Value::Integer(Integer::from_i64(-2)));
    assert_eq!(7isize.into_value(), pos(7));
    let bytes: &[u8] = &[1, 2, 3];
    assert_eq!(bytes.into_value(), Value::Binary(vec![1, 2, 3]));
    assert_eq!(vec![Value::Nil, pos(1)].into_value(), Value::Array(vec![Value::Nil, pos(1)]));
    assert_eq!(
        vec![(s("k"), Value::Boolean(false))].into_value(),
        Value::Mapping(vec![(s("k"), Value::Boolean(false))])
    );
}

#[test]
fn exit_code_normal_exit() {
    let st = ExitStatusInfo { code: Some(3), signal: None, raw: 3 << 8 };
    assert_eq!(exit_code_from_status(st), 3);
    let st = ExitStatusInfo { code: Some(0), signal: None, raw: 0 };
    assert_eq!(exit_code_from_status(st), 0);
}

#[test]
fn exit_code_killed_by_signal() {
    // SIGKILL = 9 -> 137
    let st = ExitStatusInfo { code: None, signal: Some(9), raw: 9 };
    assert_eq!(exit_code_from_status(st), 137);
}

#[test]
fn exit_code_raw_status_fallback() {
    // terminated by SIGTERM (15), signal not reported
    let st = ExitStatusInfo { code: None, signal: None, raw: 15 };
    assert_eq!(exit_code_from_status(st), 143);
    // stopped (0x7f) is no termination by signal
    let st = ExitStatusInfo { code: None, signal: None, raw: 0x137f };
    assert_eq!(exit_code_from_status(st), -1);
    // nothing to go by
    let st = ExitStatusInfo { code: None, signal: None, raw: 0 };
    assert_eq!(exit_code_from_status(st), -1);
}

#[test]
fn file_attribute_keys_are_distinct() {
    let mut attrs = sample_attrs();
    attrs.uname = Some("u".to_string());
    attrs.gname = Some("g".to_string());
    attrs.link_target = Some("t".to_string());
    let Value::Mapping(pairs) = attrs.to_value() else { panic!("not a map") };
    assert_eq!(pairs.len(), 14);
    for i in 0..pairs.len() {
        for j in (i + 1)..pairs.len() {
            assert_ne!(pairs[i].0, pairs[j].0);
        }
    }
}

#[test]
fn file_type_names_are_distinct() {
    let all = [
        FileType::File,
        FileType::Directory,
        FileType::Symlink,
        FileType::CharDevice,
        FileType::BlockDevice,
        FileType::Fifo,
        FileType::Socket,
        FileType::Unknown,
    ];
    for (i, a) in all.iter().enumerate() {
        for b in all.iter().skip(i + 1) {
            assert_ne!(a.as_str(), b.as_str());
        }
    }
}
