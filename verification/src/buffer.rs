//! The kernel's directory buffer, and the delivery of a listing into it.
//!
//! The buffer belongs to the kernel interface. It takes entries until the next
//! one would exceed the size that the kernel asked for, and reports then that
//! it is full.

use vstd::prelude::*;
use vstd::utf8::encode_utf8;
use fuser::ReplyDirectory;
use crate::attr::FileType;
use crate::listing::{offers_between, Listing, ListingView, Offer, OfferView};

verus! {

/// The directory buffer of the kernel interface. Nothing inside it is visible
/// here.
#[verifier::external_type_specification]
#[verifier::external_body]
pub struct ExReplyDirectory(ReplyDirectory);

/// The entries that a buffer holds, in the order in which it took them.
pub uninterp spec fn buffer_entries(buffer: ReplyDirectory) -> Seq<OfferView>;

/// The number of bytes that a buffer may hold: the size it was made with.
pub uninterp spec fn buffer_limit(buffer: ReplyDirectory) -> nat;

/// The bytes of the fixed part of an entry in the buffer: inode, offset,
/// length of the name and kind.
pub const ENTRY_HEADER: usize = 24;

/// The bytes that an entry with the name `name` takes in the buffer: the
/// fixed part and the bytes of the name, rounded up to a multiple of eight.
pub open spec fn entry_size(name: Seq<char>) -> nat {
    (((ENTRY_HEADER + encode_utf8(name).len() + 7) / 8) * 8) as nat
}

/// The bytes that `entries` take in the buffer.
pub open spec fn buffer_use(entries: Seq<OfferView>) -> nat
    decreases entries.len(),
{
    if entries.len() == 0 {
        0
    } else {
        buffer_use(entries.drop_last()) + entry_size(entries.last().name)
    }
}

/// A buffer of `limit` bytes of which `used` are taken has no room for an
/// entry with the name `name`. A name of more bytes than a 32-bit length can
/// say fits no buffer.
pub open spec fn refuses(used: nat, limit: nat, name: Seq<char>) -> bool {
    encode_utf8(name).len() > u32::MAX || used + entry_size(name) > limit
}

/// `fuser::ReplyDirectory::add`, for a name whose length a 32-bit number can
/// say. The buffer is full when the bytes it holds and those of the new entry
/// together exceed its limit; it then stays as it is. Otherwise the entry is
/// added behind the others. The limit never changes.
#[verifier::external_body]
fn buffer_add(buffer: &mut ReplyDirectory, offer: &Offer<'_>) -> (full: bool)
    requires
        encode_utf8(offer.name@).len() <= u32::MAX,
    ensures
        full == (buffer_use(buffer_entries(*old(buffer))) + entry_size(offer.name@) > buffer_limit(
            *old(buffer),
        )),
        full ==> buffer_entries(*final(buffer)) == buffer_entries(*old(buffer)),
        !full ==> buffer_entries(*final(buffer)) == buffer_entries(*old(buffer)).push(offer@),
        buffer_limit(*final(buffer)) == buffer_limit(*old(buffer)),
{
    let kind = match offer.kind {
        FileType::NamedPipe => fuser::FileType::NamedPipe,
        FileType::CharDevice => fuser::FileType::CharDevice,
        FileType::BlockDevice => fuser::FileType::BlockDevice,
        FileType::Directory => fuser::FileType::Directory,
        FileType::RegularFile => fuser::FileType::RegularFile,
        FileType::Symlink => fuser::FileType::Symlink,
        FileType::Socket => fuser::FileType::Socket,
    };
    buffer.add(offer.ino, offer.offset, kind, offer.name)
}

/// The listing after it has been offered to a buffer of `limit` bytes of which
/// `used` are taken: the entries are taken one by one, and the first that the
/// buffer refuses stops the listing.
pub open spec fn delivered_into(listing: ListingView, used: nat, limit: nat) -> ListingView
    decreases listing.entries.len() - listing.next,
{
    match listing.current() {
        None => listing,
        Some(offer) => if refuses(used, limit, offer.name) {
            listing.answered(true)
        } else {
            delivered_into(listing.answered(false), used + entry_size(offer.name), limit)
        },
    }
}

/// Adding an entry adds its size to the bytes in use.
pub proof fn lemma_use_grows(entries: Seq<OfferView>, offer: OfferView)
    ensures
        buffer_use(entries.push(offer)) == buffer_use(entries) + entry_size(offer.name),
{
    assert(entries.push(offer).drop_last() =~= entries);
}

/// Offers the entries of `listing` to the kernel's buffer, from the one that
/// is due, until every entry is taken or the buffer has no room for the next.
/// The entries that were taken stand in the buffer behind those it held, under
/// the numbers of their positions; the others are left for the kernel's next
/// call.
pub fn deliver(listing: &mut Listing, buffer: &mut ReplyDirectory)
    ensures
        final(listing)@ == delivered_into(
            old(listing)@,
            buffer_use(buffer_entries(*old(buffer))),
            buffer_limit(*old(buffer)),
        ),
        final(listing)@.current() is None,
        buffer_entries(*final(buffer)) == buffer_entries(*old(buffer)) + offers_between(
            old(listing)@.entries,
            old(listing)@.next,
            final(listing)@.next,
        ),
        buffer_limit(*final(buffer)) == buffer_limit(*old(buffer)),
{
    let ghost first = listing@;
    let ghost held = buffer_entries(*buffer);
    let ghost limit = buffer_limit(*buffer);
    proof {
        assert(held + offers_between(first.entries, first.next, first.next) =~= held);
    }
    loop
        invariant
            listing@.entries == first.entries,
            listing@.start == first.start,
            first.next <= listing@.next,
            buffer_limit(*buffer) == limit,
            buffer_entries(*buffer) == held + offers_between(
                first.entries,
                first.next,
                listing@.next,
            ),
            delivered_into(listing@, buffer_use(buffer_entries(*buffer)), limit) == delivered_into(
                first,
                buffer_use(held),
                limit,
            ),
        ensures
            listing@.current() is None,
        decreases
            listing@.entries.len() - listing@.next + (if listing@.current() is Some {
                1nat
            } else {
                0nat
            }),
    {
        let ghost before = listing@;
        let ghost in_buffer = buffer_entries(*buffer);
        let offer = match listing.current() {
            Some(o) => o,
            None => {
                break ;
            },
        };
        let full = if offer.name.as_bytes().len() > u32::MAX as usize {
            true
        } else {
            buffer_add(buffer, &offer)
        };
        proof {
            lemma_use_grows(in_buffer, offer@);
            if !full {
                assert(offers_between(first.entries, first.next, before.next + 1)
                    =~= offers_between(first.entries, first.next, before.next).push(offer@));
            }
        }
        listing.record(full);
    }
}

} // verus!
