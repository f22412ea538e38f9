use pyxis_fs::attr::FileType;
use pyxis_fs::listing::{Listing, Offer};
use pyxis_fs::message::{DirEntry, Response};
use pyxis_fs::reply::{interpret, Call, Reply};

fn three_entries() -> Vec<DirEntry> {
    vec![
        DirEntry { ino: 2, kind: FileType::Directory, name: ".".to_string() },
        DirEntry { ino: 3, kind: FileType::Directory, name: "..".to_string() },
        DirEntry { ino: 7, kind: FileType::RegularFile, name: "file.txt".to_string() },
    ]
}

/// Offers the listing to a buffer that takes `room` entries.
fn deliver(mut listing: Listing, room: usize) -> Vec<(u64, i64, String)> {
    let mut taken = Vec::new();
    loop {
        let offer = match listing.current() {
            Some(o) => (o.ino, o.offset, o.name.to_string()),
            None => break,
        };
        let full = taken.len() >= room;
        if !full {
            taken.push(offer);
        }
        listing.record(full);
    }
    assert!(listing.is_finished());
    taken
}

#[test]
fn listing_from_the_start_offers_everything() {
    let listing = Listing::new(three_entries(), 0);
    assert!(!listing.is_finished());
    assert_eq!(
        listing.current(),
        Some(Offer { ino: 2, offset: 1, kind: FileType::Directory, name: "." })
    );
    assert_eq!(
        deliver(listing, 10),
        vec![(2, 1, ".".to_string()), (3, 2, "..".to_string()), (7, 3, "file.txt".to_string())]
    );
}

#[test]
fn listing_skips_the_entries_before_the_offset() {
    let listing = Listing::new(three_entries(), 2);
    assert_eq!(
        listing.current(),
        Some(Offer { ino: 7, offset: 3, kind: FileType::RegularFile, name: "file.txt" })
    );
    assert_eq!(deliver(listing, 10), vec![(7, 3, "file.txt".to_string())]);
}

#[test]
fn listing_at_the_end_is_empty() {
    let listing = Listing::new(three_entries(), 3);
    assert!(listing.is_finished());
    assert_eq!(listing.current(), None);
    assert_eq!(deliver(Listing::new(three_entries(), 3), 10), Vec::new());
    assert_eq!(deliver(Listing::new(three_entries(), 4), 10), Vec::new());
    assert_eq!(deliver(Listing::new(three_entries(), i64::MAX), 10), Vec::new());
    assert_eq!(deliver(Listing::new(Vec::new(), 0), 10), Vec::new());
}

#[test]
fn listing_at_a_negative_offset_is_empty() {
    assert_eq!(deliver(Listing::new(three_entries(), -1), 10), Vec::new());
    assert_eq!(deliver(Listing::new(three_entries(), i64::MIN), 10), Vec::new());
}

#[test]
fn listing_stops_when_the_buffer_is_full() {
    let mut listing = Listing::new(three_entries(), 0);
    listing.record(false);
    assert_eq!(
        listing.current(),
        Some(Offer { ino: 3, offset: 2, kind: FileType::Directory, name: ".." })
    );
    listing.record(true);
    assert!(listing.is_finished());
    assert_eq!(listing.current(), None);
    // answers without an offer change nothing
    listing.record(false);
    assert_eq!(listing.current(), None);
    assert!(listing.is_finished());

    assert_eq!(deliver(Listing::new(three_entries(), 0), 0), Vec::new());
    assert_eq!(deliver(Listing::new(three_entries(), 0), 1), vec![(2, 1, ".".to_string())]);
    assert_eq!(
        deliver(Listing::new(three_entries(), 0), 2),
        vec![(2, 1, ".".to_string()), (3, 2, "..".to_string())]
    );
}

#[test]
fn listing_resumes_at_the_last_number_taken() {
    let first = deliver(Listing::new(three_entries(), 0), 2);
    let resume = first.last().expect("an entry").1;
    assert_eq!(resume, 2);
    let second = deliver(Listing::new(three_entries(), resume), 2);
    assert_eq!(second, vec![(7, 3, "file.txt".to_string())]);
    let resume = second.last().expect("an entry").1;
    assert_eq!(deliver(Listing::new(three_entries(), resume), 2), Vec::new());
}

#[test]
fn readdir_reply_is_a_listing_from_the_offset() {
    let reply = interpret(Call::ReadDir(1), Response::ReadDir(three_entries())).expect("a reply");
    assert_eq!(reply, Reply::Directory(Listing::new(three_entries(), 1)));
    match reply {
        Reply::Directory(listing) => {
            assert_eq!(
                deliver(listing, 10),
                vec![(3, 2, "..".to_string()), (7, 3, "file.txt".to_string())]
            );
        }
        other => panic!("not a listing: {:?}", other),
    }
}
