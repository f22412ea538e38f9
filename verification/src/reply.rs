//! From a response to the reply that a callback owes the kernel.

use vstd::prelude::*;
use crate::attr::{FileAttr, TTL_SECS};
use crate::listing::{resume_at, Listing, ListingView};
use crate::message::{Operation, Response, ResponseView};

verus! {

/// A callback of the virtual filesystem, with what its reply will need besides
/// the response.
#[derive(Clone, Copy, Debug, PartialEq, Eq, Structural)]
pub enum Call {
    Lookup,
    Getattr,
    Read,
    /// The offset at which the kernel resumes the listing.
    ReadDir(i64),
    Readlink,
    Write,
    Mknod,
    Mkdir,
    Unlink,
    Rmdir,
    Rename,
    Setattr,
}

impl Call {
    /// The operation that carries this callback to the server. Both removals
    /// travel as `Unlink`.
    pub open spec fn operation(self) -> Operation {
        match self {
            Call::Lookup => Operation::Lookup,
            Call::Getattr => Operation::Getattr,
            Call::Read => Operation::Read,
            Call::ReadDir(_) => Operation::ReadDir,
            Call::Readlink => Operation::Readlink,
            Call::Write => Operation::Write,
            Call::Mknod => Operation::Mknod,
            Call::Mkdir => Operation::Mkdir,
            Call::Unlink => Operation::Unlink,
            Call::Rmdir => Operation::Unlink,
            Call::Rename => Operation::Rename,
            Call::Setattr => Operation::Setattr,
        }
    }

    /// The operation that carries this callback to the server.
    pub fn wire_operation(&self) -> (op: Operation)
        ensures
            op == self.operation(),
    {
        match self {
            Call::Lookup => Operation::Lookup,
            Call::Getattr => Operation::Getattr,
            Call::Read => Operation::Read,
            Call::ReadDir(_) => Operation::ReadDir,
            Call::Readlink => Operation::Readlink,
            Call::Write => Operation::Write,
            Call::Mknod => Operation::Mknod,
            Call::Mkdir => Operation::Mkdir,
            Call::Unlink => Operation::Unlink,
            Call::Rmdir => Operation::Unlink,
            Call::Rename => Operation::Rename,
            Call::Setattr => Operation::Setattr,
        }
    }
}

/// What a callback hands to the kernel.
#[derive(Debug, PartialEq, Eq)]
pub enum Reply {
    /// A directory entry: its attributes, for how many seconds they may be
    /// cached, and the inode's generation.
    Entry { ttl_secs: u64, attr: FileAttr, generation: u64 },
    /// Attributes and for how many seconds they may be cached.
    Attr { ttl_secs: u64, attr: FileAttr },
    /// Bytes, as the server sent them.
    Data(Vec<u8>),
    /// A listing to offer to the kernel's buffer entry by entry.
    Directory(Listing),
    /// The number of bytes written.
    Written(u32),
    /// Success with nothing to report.
    Empty,
    /// Failure with the server's code.
    Error(i32),
}

/// What a [`Reply`] is, as a mathematical value.
pub enum ReplyView {
    Entry { ttl_secs: u64, attr: FileAttr, generation: u64 },
    Attr { ttl_secs: u64, attr: FileAttr },
    Data(Seq<u8>),
    Directory(ListingView),
    Written(u32),
    Empty,
    Error(i32),
}

impl View for Reply {
    type V = ReplyView;

    open spec fn view(&self) -> ReplyView {
        match *self {
            Reply::Entry { ttl_secs, attr, generation } => ReplyView::Entry {
                ttl_secs,
                attr,
                generation,
            },
            Reply::Attr { ttl_secs, attr } => ReplyView::Attr { ttl_secs, attr },
            Reply::Data(data) => ReplyView::Data(data@),
            Reply::Directory(listing) => ReplyView::Directory(listing@),
            Reply::Written(count) => ReplyView::Written(count),
            Reply::Empty => ReplyView::Empty,
            Reply::Error(code) => ReplyView::Error(code),
        }
    }
}

/// A response that breaks the protocol: it reports the success of another
/// operation than the one that was asked for.
#[derive(Clone, Copy, Debug, PartialEq, Eq, Structural)]
pub struct Violation {
    pub expected: Operation,
    pub received: Operation,
}

/// The reply to an entry-creating or entry-finding callback.
pub open spec fn entry_reply(attr: FileAttr) -> ReplyView {
    ReplyView::Entry { ttl_secs: TTL_SECS, attr, generation: 0 }
}

/// The reply to an attribute-reading or attribute-changing callback.
pub open spec fn attr_reply(attr: FileAttr) -> ReplyView {
    ReplyView::Attr { ttl_secs: TTL_SECS, attr }
}

/// The reply that `call` owes the kernel when the server has answered with
/// `response`, or the violation that `response` is.
///
/// The error response answers any callback with its code. A success is
/// accepted only from the operation that carried the callback, and its payload
/// goes on unchanged. A directory listing starts with nothing delivered, at
/// the position at which the kernel resumes.
pub open spec fn reply_to(call: Call, response: ResponseView) -> Result<ReplyView, Violation> {
    match (call, response) {
        (_, ResponseView::Error(code)) => Ok(ReplyView::Error(code)),
        (Call::Lookup, ResponseView::Lookup(attr)) => Ok(entry_reply(attr)),
        (Call::Getattr, ResponseView::Getattr(attr)) => Ok(attr_reply(attr)),
        (Call::Read, ResponseView::Read(data)) => Ok(ReplyView::Data(data)),
        (Call::ReadDir(offset), ResponseView::ReadDir(entries)) => Ok(
            ReplyView::Directory(
                ListingView {
                    entries,
                    start: resume_at(entries.len(), offset),
                    next: resume_at(entries.len(), offset),
                    stopped: false,
                },
            ),
        ),
        (Call::Readlink, ResponseView::Readlink(target)) => Ok(ReplyView::Data(target)),
        (Call::Write, ResponseView::Write(count)) => Ok(ReplyView::Written(count)),
        (Call::Mknod, ResponseView::Mknod(attr)) => Ok(entry_reply(attr)),
        (Call::Mkdir, ResponseView::Mkdir(attr)) => Ok(entry_reply(attr)),
        (Call::Unlink, ResponseView::Unlink) => Ok(ReplyView::Empty),
        (Call::Rmdir, ResponseView::Unlink) => Ok(ReplyView::Empty),
        (Call::Rename, ResponseView::Rename) => Ok(ReplyView::Empty),
        (Call::Setattr, ResponseView::Setattr(attr)) => Ok(attr_reply(attr)),
        _ => Err(Violation { expected: call.operation(), received: response.answers().unwrap() }),
    }
}

/// `reply` is what `expected` describes.
pub open spec fn reply_is(
    reply: Result<Reply, Violation>,
    expected: Result<ReplyView, Violation>,
) -> bool {
    match expected {
        Ok(view) => reply matches Ok(r) && r@ == view,
        Err(violation) => reply == Err::<Reply, Violation>(violation),
    }
}

/// Turns the server's response to `call` into the reply for the kernel.
///
/// The result is a violation exactly when `response` is a success of another
/// operation than the one that carried `call`.
pub fn interpret(call: Call, response: Response) -> (reply: Result<Reply, Violation>)
    ensures
        reply_is(reply, reply_to(call, response@)),
        reply is Err <==> !response@.may_answer(call.operation()),
{
    match (call, response) {
        (_, Response::Error(code)) => Ok(Reply::Error(code)),
        (Call::Lookup, Response::Lookup(attr)) => Ok(
            Reply::Entry { ttl_secs: TTL_SECS, attr, generation: 0 },
        ),
        (Call::Getattr, Response::Getattr(attr)) => Ok(Reply::Attr { ttl_secs: TTL_SECS, attr }),
        (Call::Read, Response::Read(data)) => Ok(Reply::Data(data)),
        (Call::ReadDir(offset), Response::ReadDir(entries)) => Ok(
            Reply::Directory(Listing::new(entries, offset)),
        ),
        (Call::Readlink, Response::Readlink(target)) => Ok(Reply::Data(target)),
        (Call::Write, Response::Write(count)) => Ok(Reply::Written(count)),
        (Call::Mknod, Response::Mknod(attr)) => Ok(
            Reply::Entry { ttl_secs: TTL_SECS, attr, generation: 0 },
        ),
        (Call::Mkdir, Response::Mkdir(attr)) => Ok(
            Reply::Entry { ttl_secs: TTL_SECS, attr, generation: 0 },
        ),
        (Call::Unlink, Response::Unlink) => Ok(Reply::Empty),
        (Call::Rmdir, Response::Unlink) => Ok(Reply::Empty),
        (Call::Rename, Response::Rename) => Ok(Reply::Empty),
        (Call::Setattr, Response::Setattr(attr)) => Ok(Reply::Attr { ttl_secs: TTL_SECS, attr }),
        (call, response) => {
            let received = response.answers();
            Err(Violation { expected: call.wire_operation(), received: received.unwrap() })
        },
    }
}

} // verus!
