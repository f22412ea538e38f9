use std::io::Read;
use std::sync::{Arc, Mutex};

use fuser::{Filesystem, ReplyDirectory, Request, Session, SessionACL};
use pyxis_fs::attr::FileType;
use pyxis_fs::buffer::{deliver, ENTRY_HEADER};
use pyxis_fs::listing::Listing;
use pyxis_fs::message::DirEntry;
use socket2::{Domain, Socket, Type};

/// A filesystem that answers every listing with the same entries, and notes
/// whether each delivery left the listing finished.
struct Fixed {
    entries: Vec<DirEntry>,
    finished: Arc<Mutex<Vec<bool>>>,
}

impl Filesystem for Fixed {
    fn readdir(
        &mut self,
        _req: &Request<'_>,
        _ino: u64,
        _fh: u64,
        offset: i64,
        mut reply: ReplyDirectory,
    ) {
        let mut listing = Listing::new(self.entries.clone(), offset);
        deliver(&mut listing, &mut reply);
        self.finished.lock().unwrap().push(listing.is_finished());
        reply.ok();
    }
}

fn request_header(len: u32, opcode: u32, unique: u64) -> Vec<u8> {
    let mut bytes = Vec::new();
    bytes.extend_from_slice(&len.to_ne_bytes());
    bytes.extend_from_slice(&opcode.to_ne_bytes());
    bytes.extend_from_slice(&unique.to_ne_bytes());
    bytes.extend_from_slice(&1u64.to_ne_bytes()); // node
    bytes.extend_from_slice(&0u32.to_ne_bytes()); // uid
    bytes.extend_from_slice(&0u32.to_ne_bytes()); // gid
    bytes.extend_from_slice(&0u32.to_ne_bytes()); // pid
    bytes.extend_from_slice(&0u32.to_ne_bytes()); // padding
    bytes
}

fn init_request() -> Vec<u8> {
    let mut bytes = request_header(56, 26, 1);
    bytes.extend_from_slice(&7u32.to_ne_bytes()); // major
    bytes.extend_from_slice(&8u32.to_ne_bytes()); // minor
    bytes.extend_from_slice(&4096u32.to_ne_bytes()); // readahead
    bytes.extend_from_slice(&0u32.to_ne_bytes()); // flags
    bytes
}

fn readdir_request(unique: u64, offset: i64, size: u32) -> Vec<u8> {
    let mut bytes = request_header(64, 28, unique);
    bytes.extend_from_slice(&0u64.to_ne_bytes()); // file handle
    bytes.extend_from_slice(&offset.to_ne_bytes());
    bytes.extend_from_slice(&size.to_ne_bytes());
    bytes.extend_from_slice(&0u32.to_ne_bytes()); // padding
    bytes
}

fn u32_at(bytes: &[u8], at: usize) -> u32 {
    u32::from_ne_bytes(bytes[at..at + 4].try_into().unwrap())
}

fn u64_at(bytes: &[u8], at: usize) -> u64 {
    u64::from_ne_bytes(bytes[at..at + 8].try_into().unwrap())
}

/// The entries in the body of a directory reply: inode, offset, kind bits
/// and name of each.
fn entries_in(body: &[u8]) -> Vec<(u64, i64, u32, String)> {
    let mut entries = Vec::new();
    let mut at = 0;
    while at < body.len() {
        let ino = u64_at(body, at);
        let offset = u64_at(body, at + 8) as i64;
        let len = u32_at(body, at + 16) as usize;
        let kind = u32_at(body, at + 20);
        let name = String::from_utf8(body[at + 24..at + 24 + len].to_vec()).unwrap();
        entries.push((ino, offset, kind, name));
        at += (24 + len + 7) / 8 * 8;
    }
    assert_eq!(at, body.len());
    entries
}

/// Lets the kernel interface serve one listing of `entries` from `offset`
/// into a buffer of `size` bytes, and returns what the kernel would get.
fn list(entries: Vec<DirEntry>, offset: i64, size: u32) -> Vec<(u64, i64, u32, String)> {
    let (mut kernel, daemon) = Socket::pair(Domain::UNIX, Type::DGRAM, None).unwrap();
    let finished = Arc::new(Mutex::new(Vec::new()));
    let fs = Fixed { entries, finished: finished.clone() };
    kernel.send(&init_request()).unwrap();
    kernel.send(&readdir_request(2, offset, size)).unwrap();
    kernel.send(&[]).unwrap();
    let mut session = Session::from_fd(fs, daemon.into(), SessionACL::All);
    session.run().unwrap();

    let mut reply = vec![0u8; 1 << 16];
    let n = kernel.read(&mut reply).unwrap();
    assert_eq!(u32_at(&reply, 0) as usize, n);
    assert_eq!(u32_at(&reply, 4), 0);
    assert_eq!(u64_at(&reply, 8), 1);
    let n = kernel.read(&mut reply).unwrap();
    assert_eq!(u32_at(&reply, 0) as usize, n);
    assert_eq!(u32_at(&reply, 4), 0);
    assert_eq!(u64_at(&reply, 8), 2);
    assert_eq!(*finished.lock().unwrap(), vec![true]);
    entries_in(&reply[16..n])
}

fn three_listed() -> Vec<DirEntry> {
    vec![
        DirEntry { ino: 2, kind: FileType::Directory, name: ".".to_string() },
        DirEntry { ino: 3, kind: FileType::Directory, name: "..".to_string() },
        DirEntry { ino: 7, kind: FileType::RegularFile, name: "file.txt".to_string() },
    ]
}

#[test]
fn buffer_takes_everything_that_fits() {
    assert_eq!(
        list(three_listed(), 0, 4096),
        vec![
            (2, 1, 4, ".".to_string()),
            (3, 2, 4, "..".to_string()),
            (7, 3, 8, "file.txt".to_string()),
        ]
    );
    assert_eq!(ENTRY_HEADER, 24);
}

#[test]
fn buffer_stops_at_the_first_entry_without_room() {
    // every entry here takes 32 bytes: the fixed part and a name of up to eight
    assert_eq!(list(three_listed(), 0, 31), Vec::new());
    assert_eq!(list(three_listed(), 0, 32), vec![(2, 1, 4, ".".to_string())]);
    assert_eq!(list(three_listed(), 0, 63), vec![(2, 1, 4, ".".to_string())]);
    assert_eq!(
        list(three_listed(), 0, 64),
        vec![(2, 1, 4, ".".to_string()), (3, 2, 4, "..".to_string())]
    );
    assert_eq!(
        list(three_listed(), 0, 95),
        vec![(2, 1, 4, ".".to_string()), (3, 2, 4, "..".to_string())]
    );
    assert_eq!(list(three_listed(), 0, 96).len(), 3);
}

#[test]
fn buffer_is_filled_from_the_offset() {
    assert_eq!(
        list(three_listed(), 1, 4096),
        vec![(3, 2, 4, "..".to_string()), (7, 3, 8, "file.txt".to_string())]
    );
    assert_eq!(list(three_listed(), 2, 32), vec![(7, 3, 8, "file.txt".to_string())]);
    assert_eq!(list(three_listed(), 3, 4096), Vec::new());
    assert_eq!(list(three_listed(), -1, 4096), Vec::new());
}

#[test]
fn entry_size_follows_the_bytes_of_the_name() {
    let named = |name: &str| {
        vec![
            DirEntry { ino: 1, kind: FileType::Symlink, name: name.to_string() },
            DirEntry { ino: 2, kind: FileType::Socket, name: "x".to_string() },
        ]
    };
    // nine bytes of name need 40 bytes; the second entry needs 32 more
    assert_eq!(list(named("123456789"), 0, 39).len(), 0);
    assert_eq!(list(named("123456789"), 0, 40).len(), 1);
    assert_eq!(list(named("123456789"), 0, 71).len(), 1);
    assert_eq!(list(named("123456789"), 0, 72).len(), 2);
    // three characters of three bytes each are nine bytes as well
    assert_eq!(list(named("\u{4e16}\u{754c}\u{4e16}"), 0, 39).len(), 0);
    assert_eq!(
        list(named("\u{4e16}\u{754c}\u{4e16}"), 0, 40),
        vec![(1, 1, 10, "\u{4e16}\u{754c}\u{4e16}".to_string())]
    );
    // an empty name takes the fixed part alone
    assert_eq!(list(named(""), 0, 23).len(), 0);
    assert_eq!(list(named(""), 0, 24).len(), 1);
    assert_eq!(list(named(""), 0, 56), vec![(1, 1, 10, String::new()), (2, 2, 12, "x".to_string())]);
}

#[test]
fn every_kind_reaches_the_buffer() {
    let kinds = [
        (FileType::NamedPipe, 1),
        (FileType::CharDevice, 2),
        (FileType::Directory, 4),
        (FileType::BlockDevice, 6),
        (FileType::RegularFile, 8),
        (FileType::Symlink, 10),
        (FileType::Socket, 12),
    ];
    for (kind, bits) in kinds {
        let entries = vec![DirEntry { ino: 9, kind, name: "n".to_string() }];
        assert_eq!(list(entries, 0, 4096), vec![(9, 1, bits, "n".to_string())]);
    }
}
