//! Attribute records: the metadata snapshot that the server returns for an inode.

use vstd::prelude::*;

verus! {

/// Seconds for which the kernel may cache an attribute record or an entry.
pub const TTL_SECS: u64 = 1;

/// An absolute instant: whole seconds since the Unix epoch (negative before it)
/// and the nanoseconds that follow them.
#[derive(Clone, Copy, Debug, PartialEq, Eq, Structural)]
pub struct Timestamp {
    pub secs: i64,
    pub nanos: u32,
}

/// The nanoseconds in a second.
pub const NANOS_PER_SEC: u32 = 1_000_000_000;

/// A distance from the Unix epoch: `secs` whole seconds and `nanos` further
/// nanoseconds, fewer than a second's worth, before the epoch or after it.
#[derive(Clone, Copy, Debug, PartialEq, Eq, Structural)]
pub struct EpochOffset {
    pub before: bool,
    pub secs: u64,
    pub nanos: u32,
}

impl Timestamp {
    /// The instant as a number of nanoseconds since the epoch.
    pub open spec fn nanos_since_epoch(self) -> int {
        self.secs * NANOS_PER_SEC + self.nanos
    }

    /// The instant `secs` seconds and `nanos` nanoseconds after the epoch.
    /// `None` if the seconds are more than an instant can hold.
    pub fn after_epoch(secs: u64, nanos: u32) -> (t: Option<Timestamp>)
        ensures
            secs <= i64::MAX ==> t == Some(Timestamp { secs: secs as i64, nanos }),
            secs > i64::MAX ==> t is None,
    {
        if secs <= i64::MAX as u64 {
            Some(Timestamp { secs: secs as i64, nanos })
        } else {
            None
        }
    }

    /// The instant `secs` seconds and `nanos` nanoseconds before the epoch, as
    /// the last whole second at or before it and the nanoseconds that follow
    /// that second. `None` if `nanos` is a second or more, or if the instant
    /// lies further back than an instant can hold.
    pub fn before_epoch(secs: u64, nanos: u32) -> (t: Option<Timestamp>)
        ensures
            t is Some <==> nanos < NANOS_PER_SEC && -(secs * NANOS_PER_SEC + nanos) >= i64::MIN
                * NANOS_PER_SEC,
            t matches Some(x) ==> x.nanos_since_epoch() == -(secs * NANOS_PER_SEC + nanos)
                && x.nanos < NANOS_PER_SEC,
    {
        if nanos >= NANOS_PER_SEC {
            None
        } else if nanos == 0 {
            if secs <= i64::MAX as u64 {
                Some(Timestamp { secs: -(secs as i64), nanos: 0 })
            } else if secs == i64::MAX as u64 + 1 {
                Some(Timestamp { secs: i64::MIN, nanos: 0 })
            } else {
                None
            }
        } else if secs <= i64::MAX as u64 {
            Some(Timestamp { secs: -(secs as i64) - 1, nanos: NANOS_PER_SEC - nanos })
        } else {
            None
        }
    }

    /// How far from the epoch the instant lies, and on which side. An instant
    /// at the epoch lies after it.
    pub fn epoch_offset(&self) -> (d: EpochOffset)
        ensures
            d.nanos < NANOS_PER_SEC,
            d.before <==> self.nanos_since_epoch() < 0,
            d.before ==> d.secs * NANOS_PER_SEC + d.nanos == -self.nanos_since_epoch(),
            !d.before ==> d.secs * NANOS_PER_SEC + d.nanos == self.nanos_since_epoch(),
    {
        let total: i128 = self.secs as i128 * 1_000_000_000 + self.nanos as i128;
        if total >= 0 {
            EpochOffset {
                before: false,
                secs: (total / 1_000_000_000) as u64,
                nanos: (total % 1_000_000_000) as u32,
            }
        } else {
            let back: i128 = -total;
            EpochOffset {
                before: true,
                secs: (back / 1_000_000_000) as u64,
                nanos: (back % 1_000_000_000) as u32,
            }
        }
    }
}

/// What the kernel hands over for an access or modification time.
#[derive(Clone, Copy, Debug, PartialEq, Eq, Structural)]
pub enum TimeOrNow {
    /// Set the time to this instant.
    SpecificTime(Timestamp),
    /// Set the time to the moment of the call.
    Now,
}

/// The instant that stands for `time` when the clock reads `now`.
pub open spec fn resolved(time: Option<TimeOrNow>, now: Timestamp) -> Option<Timestamp> {
    match time {
        None => None,
        Some(TimeOrNow::SpecificTime(t)) => Some(t),
        Some(TimeOrNow::Now) => Some(now),
    }
}

/// Replaces the "now" sentinel by the clock's reading, so that only absolute
/// instants travel to the server.
pub fn resolve(time: Option<TimeOrNow>, now: Timestamp) -> (r: Option<Timestamp>)
    ensures
        r == resolved(time, now),
{
    match time {
        None => None,
        Some(TimeOrNow::SpecificTime(t)) => Some(t),
        Some(TimeOrNow::Now) => Some(now),
    }
}

/// The kind of object behind an inode.
#[derive(Clone, Copy, Debug, PartialEq, Eq, Structural)]
pub enum FileType {
    NamedPipe,
    CharDevice,
    BlockDevice,
    Directory,
    RegularFile,
    Symlink,
    Socket,
}

/// A complete attribute record for one inode.
#[derive(Clone, Copy, Debug, PartialEq, Eq, Structural)]
pub struct FileAttr {
    pub ino: u64,
    pub size: u64,
    pub blocks: u64,
    pub atime: Timestamp,
    pub mtime: Timestamp,
    pub ctime: Timestamp,
    pub crtime: Timestamp,
    pub kind: FileType,
    pub perm: u16,
    pub nlink: u32,
    pub uid: u32,
    pub gid: u32,
    pub rdev: u32,
    pub blksize: u32,
    pub flags: u32,
}

} // verus!
