//! Directory listings: which entries of a response are handed to the kernel,
//! under which numbers, and when the handing over stops.

use vstd::prelude::*;
use crate::attr::FileType;
use crate::message::{entries_view, DirEntry, DirEntryView};

verus! {

/// The position of the first entry that is handed on when the kernel resumes a
/// listing of `total` entries at `offset`. An offset that is negative or past
/// the end leaves nothing to hand on.
pub open spec fn resume_at(total: nat, offset: i64) -> nat {
    if 0 <= offset < total {
        offset as nat
    } else {
        total
    }
}

/// The number under which the entry at `position` is handed to the kernel: the
/// offset at which the kernel resumes just past that entry.
pub open spec fn number_of(position: int) -> i64 {
    (position + 1) as i64
}

/// One entry as the kernel's buffer takes it.
#[derive(Clone, Copy, Debug, PartialEq, Eq)]
pub struct Offer<'a> {
    pub ino: u64,
    pub offset: i64,
    pub kind: FileType,
    pub name: &'a str,
}

/// What an [`Offer`] is, as a mathematical value.
pub struct OfferView {
    pub ino: u64,
    pub offset: i64,
    pub kind: FileType,
    pub name: Seq<char>,
}

impl<'a> View for Offer<'a> {
    type V = OfferView;

    open spec fn view(&self) -> OfferView {
        OfferView { ino: self.ino, offset: self.offset, kind: self.kind, name: self.name@ }
    }
}

/// The offer made of the entry at `position`.
pub open spec fn offer_at(entries: Seq<DirEntryView>, position: int) -> OfferView {
    OfferView {
        ino: entries[position].ino,
        offset: number_of(position),
        kind: entries[position].kind,
        name: entries[position].name,
    }
}

/// The offers made of the entries from position `from` up to, not including,
/// position `to`, in their order.
pub open spec fn offers_between(entries: Seq<DirEntryView>, from: nat, to: nat) -> Seq<OfferView> {
    Seq::new((to - from) as nat, |k: int| offer_at(entries, from + k))
}

/// Everything that a listing resumed at `offset` has to offer.
pub open spec fn offers(entries: Seq<DirEntryView>, offset: i64) -> Seq<OfferView> {
    offers_between(entries, resume_at(entries.len(), offset), entries.len())
}

/// A listing on its way into the kernel's buffer. The entries are offered one
/// by one; the first one that the buffer has no room for ends the listing, and
/// it and the entries after it are left for the kernel's next call.
#[derive(Debug, PartialEq, Eq)]
pub struct Listing {
    entries: Vec<DirEntry>,
    start: usize,
    next: usize,
    stopped: bool,
}

/// What a [`Listing`] is, as a mathematical value.
pub struct ListingView {
    /// All entries of the response.
    pub entries: Seq<DirEntryView>,
    /// The position of the first entry that was or will be offered.
    pub start: nat,
    /// The position of the entry to offer next.
    pub next: nat,
    /// The buffer has refused an entry.
    pub stopped: bool,
}

impl ListingView {
    /// The offers that the buffer has taken so far.
    pub open spec fn delivered(self) -> Seq<OfferView> {
        offers_between(self.entries, self.start, self.next)
    }

    /// The offer to make now, if the listing goes on.
    pub open spec fn current(self) -> Option<OfferView> {
        if !self.stopped && self.next < self.entries.len() {
            Some(offer_at(self.entries, self.next as int))
        } else {
            None
        }
    }

    /// The listing after the buffer has answered the current offer; `full` says
    /// that it had no room. With no offer outstanding nothing changes.
    pub open spec fn answered(self, full: bool) -> ListingView {
        if self.current() is None {
            self
        } else if full {
            ListingView { stopped: true, ..self }
        } else {
            ListingView { next: self.next + 1, ..self }
        }
    }

    /// The positions are in order and inside the listing.
    pub open spec fn wf(self) -> bool {
        self.start <= self.next <= self.entries.len()
    }
}

impl View for Listing {
    type V = ListingView;

    closed spec fn view(&self) -> ListingView {
        ListingView {
            entries: entries_view(self.entries@),
            start: self.start as nat,
            next: self.next as nat,
            stopped: self.stopped,
        }
    }
}

impl Listing {
    #[verifier::type_invariant]
    spec fn inv(self) -> bool {
        self.start <= self.next <= self.entries.len()
    }

    /// Starts the listing of `entries` for a kernel that resumes at `offset`:
    /// the entries before that position are skipped.
    pub fn new(entries: Vec<DirEntry>, offset: i64) -> (listing: Listing)
        ensures
            listing@.entries == entries_view(entries@),
            listing@.start == resume_at(entries@.len(), offset),
            listing@.next == listing@.start,
            !listing@.stopped,
            listing@.wf(),
    {
        let total = entries.len();
        let start = if offset >= 0 && (offset as u64) < (total as u64) {
            offset as usize
        } else {
            total
        };
        Listing { entries, start, next: start, stopped: false }
    }

    /// The offer to make now; `None` once the buffer was full or every entry
    /// has been taken.
    pub fn current(&self) -> (offer: Option<Offer<'_>>)
        ensures
            self@.wf(),
            match offer {
                Some(o) => self@.current() == Some(o@),
                None => self@.current() is None,
            },
    {
        proof {
            use_type_invariant(self);
        }
        if !self.stopped && self.next < self.entries.len() {
            let entry = &self.entries[self.next];
            let number = #[verifier::truncate]
            ((self.next + 1) as i64);
            Some(
                Offer {
                    ino: entry.ino,
                    offset: number,
                    kind: entry.kind,
                    name: entry.name.as_str(),
                },
            )
        } else {
            None
        }
    }

    /// Records the buffer's answer to the current offer.
    pub fn record(&mut self, full: bool)
        ensures
            final(self)@ == old(self)@.answered(full),
            final(self)@.wf(),
    {
        proof {
            use_type_invariant(&*self);
        }
        if !self.stopped && self.next < self.entries.len() {
            if full {
                self.stopped = true;
            } else {
                self.next = self.next + 1;
            }
        }
    }

    /// No offer is left to make.
    pub fn is_finished(&self) -> (done: bool)
        ensures
            done == (self@.current() is None),
    {
        self.stopped || self.next >= self.entries.len()
    }
}

} // verus!
