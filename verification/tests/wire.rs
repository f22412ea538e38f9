use pyxis_fs::attr::{FileAttr, FileType, Timestamp};
use pyxis_fs::message::{Changes, DirEntry, Request, Response};
use pyxis_fs::wire::reader::{kind_for_code, op_for_code};
use pyxis_fs::wire::writer::{code_of_kind, code_of_op};
use pyxis_fs::wire::{decode_request, decode_response, encode_request, encode_response};

fn sample_attr() -> FileAttr {
    FileAttr {
        ino: 0x0102_0304_0506_0708,
        size: u64::MAX,
        blocks: 3,
        atime: Timestamp { secs: -1, nanos: 999_999_999 },
        mtime: Timestamp { secs: i64::MAX, nanos: 0 },
        ctime: Timestamp { secs: i64::MIN, nanos: 1 },
        crtime: Timestamp { secs: 0, nanos: u32::MAX },
        kind: FileType::Symlink,
        perm: 0o7777,
        nlink: 2,
        uid: u32::MAX,
        gid: 0,
        rdev: 0x0a0b_0c0d,
        blksize: 4096,
        flags: 7,
    }
}

fn no_changes() -> Changes {
    Changes {
        mode: None,
        uid: None,
        gid: None,
        size: None,
        atime: None,
        mtime: None,
        ctime: None,
        fh: None,
        crtime: None,
        chgtime: None,
        bkuptime: None,
        flags: None,
    }
}

fn all_changes() -> Changes {
    Changes {
        mode: Some(0o600),
        uid: Some(1),
        gid: Some(2),
        size: Some(u64::MAX),
        atime: Some(Timestamp { secs: -5, nanos: 6 }),
        mtime: Some(Timestamp { secs: 7, nanos: 8 }),
        ctime: Some(Timestamp { secs: 9, nanos: 10 }),
        fh: Some(11),
        crtime: Some(Timestamp { secs: 12, nanos: 13 }),
        chgtime: Some(Timestamp { secs: 14, nanos: 15 }),
        bkuptime: Some(Timestamp { secs: 16, nanos: 17 }),
        flags: Some(18),
    }
}

fn sample_requests() -> Vec<Request> {
    vec![
        Request::Mount("Mounting PyxisFS\n".to_string()),
        Request::Lookup(1, "file.txt".to_string()),
        Request::Lookup(u64::MAX, String::new()),
        Request::Lookup(1, "h\u{e9}llo \u{4e16}\u{754c} \u{1f600}".to_string()),
        Request::Getattr(7),
        Request::Read(7, -1, u32::MAX),
        Request::ReadDir(1, i64::MIN),
        Request::Readlink(9),
        Request::Write(7, i64::MAX, vec![0, 255, 1, 254]),
        Request::Write(7, 0, Vec::new()),
        Request::Mknod(1, "dev".to_string(), 0o020_644, 0o022, 0x0103),
        Request::Mkdir(1, "dir".to_string(), 0o755, 0o022),
        Request::Unlink(1, "gone".to_string()),
        Request::Rename(1, "old".to_string(), 2, "new".to_string(), 1),
        Request::Setattr(7, no_changes()),
        Request::Setattr(7, all_changes()),
    ]
}

fn sample_responses() -> Vec<Response> {
    vec![
        Response::Mount("42".to_string()),
        Response::Lookup(sample_attr()),
        Response::Getattr(sample_attr()),
        Response::Read(vec![1, 2, 3]),
        Response::Read(Vec::new()),
        Response::ReadDir(Vec::new()),
        Response::ReadDir(vec![
            DirEntry { ino: 2, kind: FileType::Directory, name: ".".to_string() },
            DirEntry { ino: 3, kind: FileType::Directory, name: "..".to_string() },
            DirEntry { ino: 7, kind: FileType::RegularFile, name: "file.txt".to_string() },
            DirEntry { ino: 8, kind: FileType::Socket, name: "\u{1f600}".to_string() },
        ]),
        Response::Readlink(b"../target".to_vec()),
        Response::Write(u32::MAX),
        Response::Mknod(sample_attr()),
        Response::Mkdir(sample_attr()),
        Response::Unlink,
        Response::Rename,
        Response::Setattr(sample_attr()),
        Response::Error(2),
        Response::Error(-1),
        Response::Error(i32::MIN),
    ]
}

#[test]
fn every_request_survives_the_wire() {
    for request in sample_requests() {
        let bytes = encode_request(&request);
        assert_eq!(decode_request(&bytes), Some(request));
    }
}

#[test]
fn every_response_survives_the_wire() {
    for response in sample_responses() {
        let bytes = encode_response(&response);
        assert_eq!(decode_response(&bytes), Some(response));
    }
}

#[test]
fn lookup_request_bytes() {
    let bytes = encode_request(&Request::Lookup(1, "ab".to_string()));
    assert_eq!(bytes, vec![2, 1, 0, 0, 0, 0, 0, 0, 0, 2, 0, 0, 0, 0, 0, 0, 0, b'a', b'b']);
}

#[test]
fn read_request_bytes() {
    let bytes = encode_request(&Request::Read(0x0102, -2, 0x0a0b_0c0d));
    assert_eq!(
        bytes,
        vec![
            4, 0x02, 0x01, 0, 0, 0, 0, 0, 0, 0xfe, 0xff, 0xff, 0xff, 0xff, 0xff, 0xff, 0xff, 0x0d,
            0x0c, 0x0b, 0x0a
        ]
    );
}

#[test]
fn setattr_request_bytes() {
    let mut changes = no_changes();
    changes.mode = Some(0o644);
    changes.mtime = Some(Timestamp { secs: 1, nanos: 2 });
    let bytes = encode_request(&Request::Setattr(7, changes));
    assert_eq!(
        bytes,
        vec![
            12, 7, 0, 0, 0, 0, 0, 0, 0, // tag, inode
            1, 0xa4, 0x01, 0, 0, // mode
            0, 0, 0, 0, // uid, gid, size, atime
            1, 1, 0, 0, 0, 0, 0, 0, 0, 2, 0, 0, 0, // mtime
            0, 0, 0, 0, 0, 0, // ctime, fh, crtime, chgtime, bkuptime, flags
        ]
    );
}

#[test]
fn error_response_bytes() {
    assert_eq!(encode_response(&Response::Error(5)), vec![0, 5, 0, 0, 0]);
    assert_eq!(encode_response(&Response::Error(-1)), vec![0, 255, 255, 255, 255]);
}

#[test]
fn empty_success_response_bytes() {
    assert_eq!(encode_response(&Response::Unlink), vec![10]);
    assert_eq!(encode_response(&Response::Rename), vec![11]);
}

#[test]
fn attr_response_is_ninety_nine_bytes_and_a_tag() {
    let bytes = encode_response(&Response::Getattr(sample_attr()));
    assert_eq!(bytes.len(), 100);
    assert_eq!(bytes[0], 3);
    assert_eq!(&bytes[1..9], &[8, 7, 6, 5, 4, 3, 2, 1]);
    // kind and permission bits follow three numbers and four instants
    assert_eq!(bytes[1 + 24 + 48], 5);
    assert_eq!(&bytes[1 + 24 + 48 + 1..1 + 24 + 48 + 3], &[0xff, 0x0f]);
}

#[test]
fn readdir_response_bytes() {
    let response = Response::ReadDir(vec![DirEntry {
        ino: 2,
        kind: FileType::Directory,
        name: ".".to_string(),
    }]);
    assert_eq!(
        encode_response(&response),
        vec![
            5, 1, 0, 0, 0, 0, 0, 0, 0, // tag, count
            2, 0, 0, 0, 0, 0, 0, 0, 3, // inode, kind
            1, 0, 0, 0, 0, 0, 0, 0, b'.', // name
        ]
    );
}

#[test]
fn trailing_bytes_are_refused() {
    for request in sample_requests() {
        let mut bytes = encode_request(&request);
        bytes.push(0);
        assert_eq!(decode_request(&bytes), None);
    }
    for response in sample_responses() {
        let mut bytes = encode_response(&response);
        bytes.push(0);
        assert_eq!(decode_response(&bytes), None);
    }
}

#[test]
fn truncated_bytes_are_refused() {
    for request in sample_requests() {
        let bytes = encode_request(&request);
        for cut in 0..bytes.len() {
            assert_eq!(decode_request(&bytes[..cut]), None);
        }
    }
    for response in sample_responses() {
        let bytes = encode_response(&response);
        for cut in 0..bytes.len() {
            assert_eq!(decode_response(&bytes[..cut]), None);
        }
    }
}

#[test]
fn unknown_tags_are_refused() {
    assert_eq!(decode_request(&[0, 1, 0, 0, 0, 0, 0, 0, 0]), None);
    assert_eq!(decode_request(&[13, 1, 0, 0, 0, 0, 0, 0, 0]), None);
    assert_eq!(decode_request(&[255]), None);
    assert_eq!(decode_response(&[13]), None);
    assert_eq!(decode_response(&[255, 0, 0, 0, 0]), None);
    assert_eq!(decode_request(&[]), None);
    assert_eq!(decode_response(&[]), None);
}

#[test]
fn text_that_is_not_utf8_is_refused() {
    let mut bytes = encode_request(&Request::Lookup(1, "ab".to_string()));
    let last = bytes.len() - 1;
    bytes[last] = 0xff;
    assert_eq!(decode_request(&bytes), None);
    // a lone continuation byte, and a sequence cut short
    assert_eq!(decode_response(&[1, 1, 0, 0, 0, 0, 0, 0, 0, 0x80]), None);
    assert_eq!(decode_response(&[1, 2, 0, 0, 0, 0, 0, 0, 0, 0xe4, 0xb8]), None);
    assert_eq!(
        decode_response(&[1, 3, 0, 0, 0, 0, 0, 0, 0, 0xe4, 0xb8, 0x96]),
        Some(Response::Mount("\u{4e16}".to_string()))
    );
}

#[test]
fn length_beyond_the_input_is_refused() {
    // a byte string that claims more bytes than follow
    assert_eq!(decode_response(&[4, 4, 0, 0, 0, 0, 0, 0, 0, 1, 2, 3]), None);
    assert_eq!(decode_response(&[4, 255, 255, 255, 255, 255, 255, 255, 255, 1]), None);
    // a listing that claims more entries than follow
    assert_eq!(decode_response(&[5, 255, 255, 255, 255, 255, 255, 255, 255]), None);
    assert_eq!(decode_response(&[5, 1, 0, 0, 0, 0, 0, 0, 0]), None);
}

#[test]
fn unknown_file_kind_is_refused() {
    let mut bytes = encode_response(&Response::Getattr(sample_attr()));
    bytes[1 + 24 + 48] = 7;
    assert_eq!(decode_response(&bytes), None);
    bytes[1 + 24 + 48] = 6;
    let mut expected = sample_attr();
    expected.kind = FileType::Socket;
    assert_eq!(decode_response(&bytes), Some(Response::Getattr(expected)));
}

#[test]
fn presence_byte_other_than_zero_or_one_is_refused() {
    let mut bytes = encode_request(&Request::Setattr(7, no_changes()));
    assert_eq!(bytes.len(), 1 + 8 + 12);
    bytes[9] = 2;
    assert_eq!(decode_request(&bytes), None);
}

#[test]
fn codes_of_kinds_and_operations() {
    let kinds = [
        FileType::NamedPipe,
        FileType::CharDevice,
        FileType::BlockDevice,
        FileType::Directory,
        FileType::RegularFile,
        FileType::Symlink,
        FileType::Socket,
    ];
    for (i, kind) in kinds.iter().enumerate() {
        assert_eq!(code_of_kind(*kind), i as u8);
        assert_eq!(kind_for_code(i as u8), Some(*kind));
    }
    assert_eq!(kind_for_code(7), None);
    for code in 1..=12u8 {
        let op = op_for_code(code).expect("an operation");
        assert_eq!(code_of_op(op), code);
    }
    assert_eq!(op_for_code(0), None);
    assert_eq!(op_for_code(13), None);
}

#[test]
fn timestamps_keep_every_bit() {
    let mut attr = sample_attr();
    attr.atime = Timestamp { secs: -1_234_567_890_123, nanos: 4_000_000_000 };
    let bytes = encode_response(&Response::Setattr(attr));
    match decode_response(&bytes) {
        Some(Response::Setattr(back)) => {
            assert_eq!(back.atime.secs, -1_234_567_890_123);
            assert_eq!(back.atime.nanos, 4_000_000_000);
            assert_eq!(back, attr);
        }
        other => panic!("not a setattr response: {:?}", other),
    }
}
