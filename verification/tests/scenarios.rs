use pyxis_fs::adapter::{Fault, Phase, PyxisFS};
use pyxis_fs::attr::{FileAttr, FileType, Timestamp};
use pyxis_fs::message::{DirEntry, Request, Response};
use pyxis_fs::reply::{Call, Reply};
use pyxis_fs::session::StartupError;
use pyxis_fs::wire::{decode_request, encode_request, encode_response};

fn file_attr(ino: u64, kind: FileType, size: u64) -> FileAttr {
    let t = Timestamp { secs: 1_600_000_000, nanos: 123_456_789 };
    FileAttr {
        ino,
        size,
        blocks: 1,
        atime: t,
        mtime: t,
        ctime: t,
        crtime: t,
        kind,
        perm: 0o644,
        nlink: 1,
        uid: 1000,
        gid: 1000,
        rdev: 0,
        blksize: 512,
        flags: 0,
    }
}

fn entry(ino: u64, kind: FileType, name: &str) -> DirEntry {
    DirEntry { ino, kind, name: name.to_string() }
}

/// A server with a root directory that holds one file of ten bytes.
fn fake_server(request: &Request) -> Response {
    let content = b"0123456789";
    match request {
        Request::Mount(_) => Response::Mount("42".to_string()),
        Request::Lookup(1, name) if name == "file.txt" => {
            Response::Lookup(file_attr(7, FileType::RegularFile, 10))
        }
        Request::Lookup(_, _) => Response::Error(2),
        Request::Getattr(1) => Response::Getattr(file_attr(1, FileType::Directory, 0)),
        Request::Getattr(7) => Response::Getattr(file_attr(7, FileType::RegularFile, 10)),
        Request::Read(7, offset, size) => {
            let from = (*offset as usize).min(content.len());
            let to = (from + *size as usize).min(content.len());
            Response::Read(content[from..to].to_vec())
        }
        Request::ReadDir(1, _) => Response::ReadDir(vec![
            entry(2, FileType::Directory, "."),
            entry(3, FileType::Directory, ".."),
            entry(7, FileType::RegularFile, "file.txt"),
        ]),
        Request::Setattr(7, _) => Response::Setattr(file_attr(7, FileType::RegularFile, 10)),
        _ => Response::Error(38),
    }
}

/// Carries a request to the fake server and the response back, as bytes.
fn over_the_wire(request: &Request) -> Vec<u8> {
    let received = decode_request(&encode_request(request)).expect("a request");
    assert_eq!(&received, request);
    encode_response(&fake_server(&received))
}

fn mounted_adapter() -> PyxisFS {
    let mut fs = PyxisFS::new("::1");
    assert!(fs.connect().is_some());
    let mount = fs.connected().expect("the mount request");
    let answer = fake_server(&mount);
    assert_eq!(fs.mounted(answer), Ok("42".to_string()));
    fs
}

fn offered(reply: Reply) -> Vec<(u64, i64, FileType, String)> {
    let mut listing = match reply {
        Reply::Directory(listing) => listing,
        other => panic!("not a listing: {:?}", other),
    };
    let mut taken = Vec::new();
    loop {
        let offer = match listing.current() {
            Some(o) => (o.ino, o.offset, o.kind, o.name.to_string()),
            None => break,
        };
        taken.push(offer);
        listing.record(false);
    }
    assert!(listing.is_finished());
    taken
}

#[test]
fn mount_succeeds_with_mount_response() {
    let mut fs = PyxisFS::new("192.0.2.1");
    assert_eq!(fs.phase(), Phase::Unmounted);
    let plan = fs.connect().expect("a plan");
    assert_eq!(plan.server, "192.0.2.1");
    assert_eq!(fs.phase(), Phase::Connecting);
    let request = fs.connected().expect("the mount request");
    assert_eq!(request, Request::Mount("Mounting PyxisFS\n".to_string()));
    assert_eq!(fs.phase(), Phase::Handshaking);
    let id = fs.mounted(Response::Mount("42".to_string()));
    assert_eq!(id, Ok("42".to_string()));
    assert_eq!(fs.phase(), Phase::Idle);
    assert!(fs.getattr(1).is_ok());
}

#[test]
fn mount_aborts_with_error_code() {
    let mut fs = PyxisFS::new("192.0.2.1");
    fs.connect();
    fs.connected();
    let id = fs.mounted(Response::Error(5));
    assert_eq!(id, Err(StartupError::Refused(5)));
    assert_eq!(fs.phase(), Phase::Faulted);
    assert_eq!(fs.getattr(1), Err(107));
}

#[test]
fn lookup_then_read() {
    let mut fs = mounted_adapter();
    let request = fs.lookup(1, b"file.txt").expect("a request");
    assert_eq!(request, Request::Lookup(1, "file.txt".to_string()));
    let reply = fs.receive(&over_the_wire(&request)).expect("a reply");
    let ino = match reply {
        Reply::Entry { ttl_secs, attr, generation } => {
            assert_eq!(ttl_secs, 1);
            assert_eq!(generation, 0);
            assert_eq!(attr, file_attr(7, FileType::RegularFile, 10));
            attr.ino
        }
        other => panic!("not an entry: {:?}", other),
    };
    assert_eq!(ino, 7);

    let request = fs.read(ino, 0, 4).expect("a request");
    assert_eq!(request, Request::Read(7, 0, 4));
    let reply = fs.receive(&over_the_wire(&request)).expect("a reply");
    assert_eq!(reply, Reply::Data(b"0123".to_vec()));
    assert_eq!(fs.phase(), Phase::Idle);
}

#[test]
fn read_past_the_end_returns_the_remainder() {
    let mut fs = mounted_adapter();
    let request = fs.read(7, 8, 4).expect("a request");
    let reply = fs.receive(&over_the_wire(&request)).expect("a reply");
    assert_eq!(reply, Reply::Data(b"89".to_vec()));

    let request = fs.read(7, 10, 4).expect("a request");
    let reply = fs.receive(&over_the_wire(&request)).expect("a reply");
    assert_eq!(reply, Reply::Data(Vec::new()));
}

#[test]
fn directory_pagination() {
    let mut fs = mounted_adapter();
    let request = fs.readdir(1, 0).expect("a request");
    assert_eq!(request, Request::ReadDir(1, 0));
    assert_eq!(fs.phase(), Phase::AwaitingResponse(Call::ReadDir(0)));
    let reply = fs.receive(&over_the_wire(&request)).expect("a reply");
    assert_eq!(
        offered(reply),
        vec![
            (2, 1, FileType::Directory, ".".to_string()),
            (3, 2, FileType::Directory, "..".to_string()),
            (7, 3, FileType::RegularFile, "file.txt".to_string()),
        ]
    );

    let request = fs.readdir(1, 3).expect("a request");
    assert_eq!(request, Request::ReadDir(1, 3));
    let reply = fs.receive(&over_the_wire(&request)).expect("a reply");
    assert_eq!(offered(reply), Vec::new());
    assert_eq!(fs.phase(), Phase::Idle);
}

#[test]
fn getattr_twice_gives_the_same() {
    let mut fs = mounted_adapter();
    let first_request = fs.getattr(7).expect("a request");
    let first = fs.receive(&over_the_wire(&first_request)).expect("a reply");
    let second_request = fs.getattr(7).expect("a request");
    let second = fs.receive(&over_the_wire(&second_request)).expect("a reply");
    assert_eq!(first_request, second_request);
    assert_eq!(first, second);
    assert_eq!(
        first,
        Reply::Attr { ttl_secs: 1, attr: file_attr(7, FileType::RegularFile, 10) }
    );
}

#[test]
fn setattr_of_nothing_returns_current_attributes() {
    let mut fs = mounted_adapter();
    let now = Timestamp { secs: 1_700_000_000, nanos: 5 };
    let request = fs
        .setattr(7, None, None, None, None, None, None, None, None, None, None, None, None, now)
        .expect("a request");
    match &request {
        Request::Setattr(ino, changes) => {
            assert_eq!(*ino, 7);
            assert_eq!(changes.mode, None);
            assert_eq!(changes.uid, None);
            assert_eq!(changes.gid, None);
            assert_eq!(changes.size, None);
            assert_eq!(changes.atime, None);
            assert_eq!(changes.mtime, None);
            assert_eq!(changes.ctime, None);
            assert_eq!(changes.fh, None);
            assert_eq!(changes.crtime, None);
            assert_eq!(changes.chgtime, None);
            assert_eq!(changes.bkuptime, None);
            assert_eq!(changes.flags, None);
        }
        other => panic!("not a setattr: {:?}", other),
    }
    let changed = fs.receive(&over_the_wire(&request)).expect("a reply");
    let request = fs.getattr(7).expect("a request");
    let current = fs.receive(&over_the_wire(&request)).expect("a reply");
    assert_eq!(changed, current);
}

#[test]
fn server_error_reaches_the_kernel_unchanged() {
    let mut fs = mounted_adapter();
    let request = fs.lookup(1, b"missing").expect("a request");
    let reply = fs.receive(&over_the_wire(&request)).expect("a reply");
    assert_eq!(reply, Reply::Error(2));
    assert_eq!(fs.phase(), Phase::Idle);
}

#[test]
fn mismatched_success_is_a_violation() {
    let mut fs = mounted_adapter();
    fs.write(7, 0, b"abc").expect("a request");
    let wrong = encode_response(&Response::Getattr(file_attr(7, FileType::RegularFile, 10)));
    match fs.receive(&wrong) {
        Err(Fault::Violation(v)) => {
            assert_eq!(v.expected, pyxis_fs::message::Operation::Write);
            assert_eq!(v.received, pyxis_fs::message::Operation::Getattr);
        }
        other => panic!("not a violation: {:?}", other),
    }
    assert_eq!(fs.phase(), Phase::Faulted);
    assert_eq!(fs.getattr(7), Err(107));
}
