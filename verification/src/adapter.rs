//! The filesystem adapter: one request out and one response back for every
//! callback, over a session that is opened once.
//!
//! The adapter decides; the program around it carries the bytes. A callback
//! yields the request to send, and the response that comes back yields the
//! reply for the kernel. While a request is outstanding no other is issued.
//!
//! A callback is refused with `ENOTCONN` unless the adapter is mounted and
//! idle, and with `EINVAL` when a name that it was given is not UTF-8; a
//! refused callback changes nothing. What arrives out of turn changes nothing
//! either.

use vstd::prelude::*;
use vstd::slice::slice_to_vec;
use crate::attr::{resolve, resolved, TimeOrNow, Timestamp};
use crate::message::{Changes, Request, RequestView, Response, ResponseView};
use crate::reply::{interpret, reply_to, Call, Reply, ReplyView, Violation};
use crate::session::{
    greeting, handshake, handshake_of, mount_request, plan_for, SessionPlan, SessionPlanView,
    StartupError,
};
use crate::text::{decode_text, text_of};
use crate::wire::frame::response_of;
use crate::wire::reader::decode_response;

verus! {

/// The error code with which a callback is refused whose arguments make no
/// request: a name that is not UTF-8.
pub const EINVAL: i32 = 22;

/// The error code with which a callback is refused while no session is ready
/// to carry it.
pub const ENOTCONN: i32 = 107;

/// Where the adapter stands.
#[derive(Clone, Copy, Debug, PartialEq, Eq, Structural)]
pub enum Phase {
    /// Nothing has happened yet.
    Unmounted,
    /// The connection is being opened.
    Connecting,
    /// The mount request is on its way.
    Handshaking,
    /// Mounted, and no request is outstanding.
    Idle,
    /// Mounted, and the response to this callback's request is awaited.
    AwaitingResponse(Call),
    /// The session is lost; nothing will succeed any more.
    Faulted,
}

/// Why a response did not become a reply.
#[derive(Clone, Copy, Debug, PartialEq, Eq, Structural)]
pub enum Fault {
    /// The response reports the success of another operation than the one
    /// that was asked for.
    Violation(Violation),
    /// No request was outstanding.
    Unsolicited,
    /// The bytes that arrived are no response.
    Malformed,
}

/// The adapter between the kernel's callbacks and one session with a server.
#[derive(Debug)]
pub struct PyxisFS {
    server: String,
    phase: Phase,
}

/// What a [`PyxisFS`] is, as a mathematical value.
pub struct PyxisView {
    pub server: Seq<char>,
    pub phase: Phase,
}

impl PyxisView {
    /// The same adapter in another phase.
    pub open spec fn at(self, phase: Phase) -> PyxisView {
        PyxisView { phase, ..self }
    }

    /// Opening the connection: only an adapter that has done nothing yet
    /// starts, and it is told how to connect.
    pub open spec fn connect(self) -> (PyxisView, Option<SessionPlanView>) {
        if self.phase == Phase::Unmounted {
            (self.at(Phase::Connecting), Some(plan_for(self.server)))
        } else {
            (self, None)
        }
    }

    /// The connection stands: the mount request goes out.
    pub open spec fn connected(self) -> (PyxisView, Option<RequestView>) {
        if self.phase == Phase::Connecting {
            (self.at(Phase::Handshaking), Some(RequestView::Mount(greeting())))
        } else {
            (self, None)
        }
    }

    /// The answer to the mount request has arrived: the mount response makes
    /// the adapter ready, anything else ends it.
    pub open spec fn mounted(self, response: ResponseView) -> (
        PyxisView,
        Result<Seq<char>, StartupError>,
    ) {
        if self.phase == Phase::Handshaking {
            match handshake_of(response) {
                Ok(id) => (self.at(Phase::Idle), Ok(id)),
                Err(e) => (self.at(Phase::Faulted), Err(e)),
            }
        } else {
            (self, Err(StartupError::NotHandshaking))
        }
    }

    /// A callback arrives with the request that its arguments make, or with
    /// `None` where they make none. Only an idle adapter issues a request; it
    /// then awaits the response.
    pub open spec fn dispatch(self, call: Call, request: Option<RequestView>) -> (
        PyxisView,
        Result<RequestView, i32>,
    ) {
        if self.phase != Phase::Idle {
            (self, Err(ENOTCONN))
        } else {
            match request {
                Some(r) => (self.at(Phase::AwaitingResponse(call)), Ok(r)),
                None => (self, Err(EINVAL)),
            }
        }
    }

    /// A response arrives. The awaited one becomes the reply and leaves the
    /// adapter idle again; a violation ends the session.
    pub open spec fn settle(self, response: ResponseView) -> (PyxisView, Result<ReplyView, Fault>) {
        match self.phase {
            Phase::AwaitingResponse(call) => match reply_to(call, response) {
                Ok(reply) => (self.at(Phase::Idle), Ok(reply)),
                Err(violation) => (self.at(Phase::Faulted), Err(Fault::Violation(violation))),
            },
            _ => (self, Err(Fault::Unsolicited)),
        }
    }

    /// Bytes arrive where a response is awaited. Bytes that are no response
    /// are a failure of the transport and end the session.
    pub open spec fn receive(self, bytes: Seq<u8>) -> (PyxisView, Result<ReplyView, Fault>) {
        match self.phase {
            Phase::AwaitingResponse(_) => match response_of(bytes) {
                Some(response) => self.settle(response),
                None => (self.at(Phase::Faulted), Err(Fault::Malformed)),
            },
            _ => (self, Err(Fault::Unsolicited)),
        }
    }
}

/// The request of a callback that names one entry of a directory.
pub open spec fn named(name: Seq<u8>, request: spec_fn(Seq<char>) -> RequestView) -> Option<
    RequestView,
> {
    match text_of(name) {
        Some(text) => Some(request(text)),
        None => None,
    }
}

/// The request that renames `name` in `parent` to `newname` in `newparent`.
pub open spec fn rename_request(
    parent: u64,
    name: Seq<u8>,
    newparent: u64,
    newname: Seq<u8>,
    flags: u32,
) -> Option<RequestView> {
    match (text_of(name), text_of(newname)) {
        (Some(from), Some(to)) => Some(RequestView::Rename(parent, from, newparent, to, flags)),
        _ => None,
    }
}

/// The request that changes the attributes of `ino`: the fields that are given
/// travel as they are, but for an access or modification time given as "now",
/// in whose place `now` travels.
pub open spec fn setattr_request(
    ino: u64,
    mode: Option<u32>,
    uid: Option<u32>,
    gid: Option<u32>,
    size: Option<u64>,
    atime: Option<TimeOrNow>,
    mtime: Option<TimeOrNow>,
    ctime: Option<Timestamp>,
    fh: Option<u64>,
    crtime: Option<Timestamp>,
    chgtime: Option<Timestamp>,
    bkuptime: Option<Timestamp>,
    flags: Option<u32>,
    now: Timestamp,
) -> RequestView {
    RequestView::Setattr(
        ino,
        Changes {
            mode,
            uid,
            gid,
            size,
            atime: resolved(atime, now),
            mtime: resolved(mtime, now),
            ctime,
            fh,
            crtime,
            chgtime,
            bkuptime,
            flags,
        },
    )
}

/// `result` is what `expected` describes.
pub open spec fn request_is(
    result: Result<Request, i32>,
    expected: Result<RequestView, i32>,
) -> bool {
    match expected {
        Ok(view) => result matches Ok(r) && r@ == view,
        Err(code) => result == Err::<Request, i32>(code),
    }
}

/// A callback has been handled: the adapter went from `before` to `after`
/// and returned `result`, as the arrival of `call` with `request` asks.
pub open spec fn issued(
    before: PyxisView,
    after: PyxisView,
    result: Result<Request, i32>,
    call: Call,
    request: Option<RequestView>,
) -> bool {
    after == before.dispatch(call, request).0 && request_is(
        result,
        before.dispatch(call, request).1,
    )
}

/// `result` is what `expected` describes.
pub open spec fn reply_result_is(
    result: Result<Reply, Fault>,
    expected: Result<ReplyView, Fault>,
) -> bool {
    match expected {
        Ok(view) => result matches Ok(r) && r@ == view,
        Err(fault) => result == Err::<Reply, Fault>(fault),
    }
}

impl View for PyxisFS {
    type V = PyxisView;

    closed spec fn view(&self) -> PyxisView {
        PyxisView { server: self.server@, phase: self.phase }
    }
}

impl PyxisFS {
    /// An adapter for a session with `server`. Nothing is connected yet.
    pub fn new(server: &str) -> (fs: PyxisFS)
        ensures
            fs@ == (PyxisView { server: server@, phase: Phase::Unmounted }),
    {
        PyxisFS { server: server.to_owned(), phase: Phase::Unmounted }
    }

    /// Where the adapter stands.
    pub fn phase(&self) -> (phase: Phase)
        ensures
            phase == self@.phase,
    {
        self.phase
    }

    /// The server's address, as it was given.
    pub fn server(&self) -> (server: &str)
        ensures
            server@ == self@.server,
    {
        self.server.as_str()
    }

    /// Starts the session: returns how to open the connection. An adapter that
    /// has started before returns `None` and stays as it is, since a session
    /// is opened once.
    pub fn connect(&mut self) -> (plan: Option<SessionPlan>)
        ensures
            final(self)@ == old(self)@.connect().0,
            match old(self)@.connect().1 {
                Some(view) => plan matches Some(p) && p@ == view,
                None => plan is None,
            },
    {
        match self.phase {
            Phase::Unmounted => {
                self.phase = Phase::Connecting;
                Some(SessionPlan::new(self.server.as_str()))
            },
            _ => None,
        }
    }

    /// The connection is open: returns the mount request to send. Without a
    /// connection under way it returns `None` and the adapter stays as it is.
    pub fn connected(&mut self) -> (request: Option<Request>)
        ensures
            final(self)@ == old(self)@.connected().0,
            match old(self)@.connected().1 {
                Some(view) => request matches Some(r) && r@ == view,
                None => request is None,
            },
    {
        match self.phase {
            Phase::Connecting => {
                self.phase = Phase::Handshaking;
                Some(mount_request())
            },
            _ => None,
        }
    }

    /// Takes the server's answer to the mount request. The mount response
    /// yields the mount identifier and an idle adapter. The error response and
    /// every other response end the session before it began.
    pub fn mounted(&mut self, response: Response) -> (id: Result<String, StartupError>)
        ensures
            final(self)@ == old(self)@.mounted(response@).0,
            crate::session::handshake_is(id, old(self)@.mounted(response@).1),
    {
        match self.phase {
            Phase::Handshaking => {
                let outcome = handshake(response);
                match outcome {
                    Ok(id) => {
                        self.phase = Phase::Idle;
                        Ok(id)
                    },
                    Err(e) => {
                        self.phase = Phase::Faulted;
                        Err(e)
                    },
                }
            },
            _ => Err(StartupError::NotHandshaking),
        }
    }

    /// The transport has failed: the session is lost for good.
    pub fn fault(&mut self)
        ensures
            final(self)@ == old(self)@.at(Phase::Faulted),
    {
        self.phase = Phase::Faulted;
    }

    fn issue(&mut self, call: Call, request: Option<Request>) -> (result: Result<Request, i32>)
        ensures
            issued(
                old(self)@,
                final(self)@,
                result,
                call,
                match request {
                    Some(r) => Some(r@),
                    None => None,
                },
            ),
    {
        match self.phase {
            Phase::Idle => match request {
                Some(r) => {
                    self.phase = Phase::AwaitingResponse(call);
                    Ok(r)
                },
                None => Err(EINVAL),
            },
            _ => Err(ENOTCONN),
        }
    }

    /// Resolves `name` within the directory `parent`.
    pub fn lookup(&mut self, parent: u64, name: &[u8]) -> (result: Result<Request, i32>)
        ensures
            issued(
                old(self)@,
                final(self)@,
                result,
                Call::Lookup,
                named(name@, |n: Seq<char>| RequestView::Lookup(parent, n)),
            ),
    {
        let request = match decode_text(name) {
            Some(n) => Some(Request::Lookup(parent, n)),
            None => None,
        };
        self.issue(Call::Lookup, request)
    }

    /// Fetches the attributes of `ino`.
    pub fn getattr(&mut self, ino: u64) -> (result: Result<Request, i32>)
        ensures
            issued(
                old(self)@,
                final(self)@,
                result,
                Call::Getattr,
                Some(RequestView::Getattr(ino)),
            ),
    {
        self.issue(Call::Getattr, Some(Request::Getattr(ino)))
    }

    /// Reads up to `size` bytes of `ino` from `offset`.
    pub fn read(&mut self, ino: u64, offset: i64, size: u32) -> (result: Result<Request, i32>)
        ensures
            issued(
                old(self)@,
                final(self)@,
                result,
                Call::Read,
                Some(RequestView::Read(ino, offset, size)),
            ),
    {
        self.issue(Call::Read, Some(Request::Read(ino, offset, size)))
    }

    /// Lists the directory `ino` for a kernel that resumes at `offset`. The
    /// offset travels to the server and is kept for the reply, which skips the
    /// entries before it.
    pub fn readdir(&mut self, ino: u64, offset: i64) -> (result: Result<Request, i32>)
        ensures
            issued(
                old(self)@,
                final(self)@,
                result,
                Call::ReadDir(offset),
                Some(RequestView::ReadDir(ino, offset)),
            ),
    {
        self.issue(Call::ReadDir(offset), Some(Request::ReadDir(ino, offset)))
    }

    /// Fetches the target of the symbolic link `ino`.
    pub fn readlink(&mut self, ino: u64) -> (result: Result<Request, i32>)
        ensures
            issued(
                old(self)@,
                final(self)@,
                result,
                Call::Readlink,
                Some(RequestView::Readlink(ino)),
            ),
    {
        self.issue(Call::Readlink, Some(Request::Readlink(ino)))
    }

    /// Writes `data` to `ino` at `offset`.
    pub fn write(&mut self, ino: u64, offset: i64, data: &[u8]) -> (result: Result<Request, i32>)
        ensures
            issued(
                old(self)@,
                final(self)@,
                result,
                Call::Write,
                Some(RequestView::Write(ino, offset, data@)),
            ),
    {
        self.issue(Call::Write, Some(Request::Write(ino, offset, slice_to_vec(data))))
    }

    /// Creates the special file `name` in the directory `parent`.
    pub fn mknod(&mut self, parent: u64, name: &[u8], mode: u32, umask: u32, rdev: u32) -> (result:
        Result<Request, i32>)
        ensures
            issued(
                old(self)@,
                final(self)@,
                result,
                Call::Mknod,
                named(name@, |n: Seq<char>| RequestView::Mknod(parent, n, mode, umask, rdev)),
            ),
    {
        let request = match decode_text(name) {
            Some(n) => Some(Request::Mknod(parent, n, mode, umask, rdev)),
            None => None,
        };
        self.issue(Call::Mknod, request)
    }

    /// Creates the directory `name` in the directory `parent`.
    pub fn mkdir(&mut self, parent: u64, name: &[u8], mode: u32, umask: u32) -> (result: Result<
        Request,
        i32,
    >)
        ensures
            issued(
                old(self)@,
                final(self)@,
                result,
                Call::Mkdir,
                named(name@, |n: Seq<char>| RequestView::Mkdir(parent, n, mode, umask)),
            ),
    {
        let request = match decode_text(name) {
            Some(n) => Some(Request::Mkdir(parent, n, mode, umask)),
            None => None,
        };
        self.issue(Call::Mkdir, request)
    }

    /// Removes the file `name` from the directory `parent`.
    pub fn unlink(&mut self, parent: u64, name: &[u8]) -> (result: Result<Request, i32>)
        ensures
            issued(
                old(self)@,
                final(self)@,
                result,
                Call::Unlink,
                named(name@, |n: Seq<char>| RequestView::Unlink(parent, n)),
            ),
    {
        let request = match decode_text(name) {
            Some(n) => Some(Request::Unlink(parent, n)),
            None => None,
        };
        self.issue(Call::Unlink, request)
    }

    /// Removes the directory `name` from the directory `parent`. On the wire
    /// this is the request that removes a file: the protocol has one removal,
    /// and whether a directory may go is left to the server.
    pub fn rmdir(&mut self, parent: u64, name: &[u8]) -> (result: Result<Request, i32>)
        ensures
            issued(
                old(self)@,
                final(self)@,
                result,
                Call::Rmdir,
                named(name@, |n: Seq<char>| RequestView::Unlink(parent, n)),
            ),
    {
        let request = match decode_text(name) {
            Some(n) => Some(Request::Unlink(parent, n)),
            None => None,
        };
        self.issue(Call::Rmdir, request)
    }

    /// Moves `name` in `parent` to `newname` in `newparent`.
    pub fn rename(
        &mut self,
        parent: u64,
        name: &[u8],
        newparent: u64,
        newname: &[u8],
        flags: u32,
    ) -> (result: Result<Request, i32>)
        ensures
            issued(
                old(self)@,
                final(self)@,
                result,
                Call::Rename,
                rename_request(parent, name@, newparent, newname@, flags),
            ),
    {
        let request = match decode_text(name) {
            Some(from) => match decode_text(newname) {
                Some(to) => Some(Request::Rename(parent, from, newparent, to, flags)),
                None => None,
            },
            None => None,
        };
        self.issue(Call::Rename, request)
    }

    /// Changes the attributes of `ino`: the fields that are given, and no
    /// others. An access or modification time that the kernel gave as "now" is
    /// replaced by `now`, the caller's reading of the clock.
    pub fn setattr(
        &mut self,
        ino: u64,
        mode: Option<u32>,
        uid: Option<u32>,
        gid: Option<u32>,
        size: Option<u64>,
        atime: Option<TimeOrNow>,
        mtime: Option<TimeOrNow>,
        ctime: Option<Timestamp>,
        fh: Option<u64>,
        crtime: Option<Timestamp>,
        chgtime: Option<Timestamp>,
        bkuptime: Option<Timestamp>,
        flags: Option<u32>,
        now: Timestamp,
    ) -> (result: Result<Request, i32>)
        ensures
            issued(
                old(self)@,
                final(self)@,
                result,
                Call::Setattr,
                Some(
                    setattr_request(
                        ino,
                        mode,
                        uid,
                        gid,
                        size,
                        atime,
                        mtime,
                        ctime,
                        fh,
                        crtime,
                        chgtime,
                        bkuptime,
                        flags,
                        now,
                    ),
                ),
            ),
    {
        let changes = Changes {
            mode,
            uid,
            gid,
            size,
            atime: resolve(atime, now),
            mtime: resolve(mtime, now),
            ctime,
            fh,
            crtime,
            chgtime,
            bkuptime,
            flags,
        };
        self.issue(Call::Setattr, Some(Request::Setattr(ino, changes)))
    }

    /// Takes the response to the outstanding request and returns the reply for
    /// the kernel. The error response becomes the error reply with its code;
    /// the success of the operation that was asked for becomes that
    /// callback's reply; the success of another operation is a violation and
    /// ends the session. A response that nothing awaits changes nothing.
    pub fn complete(&mut self, response: Response) -> (result: Result<Reply, Fault>)
        ensures
            final(self)@ == old(self)@.settle(response@).0,
            reply_result_is(result, old(self)@.settle(response@).1),
    {
        match self.phase {
            Phase::AwaitingResponse(call) => match interpret(call, response) {
                Ok(reply) => {
                    self.phase = Phase::Idle;
                    Ok(reply)
                },
                Err(violation) => {
                    self.phase = Phase::Faulted;
                    Err(Fault::Violation(violation))
                },
            },
            _ => Err(Fault::Unsolicited),
        }
    }

    /// Takes the bytes that came back for the outstanding request: decodes
    /// them and completes the exchange. Bytes that are no response end the
    /// session, as every failure of the transport does.
    pub fn receive(&mut self, bytes: &[u8]) -> (result: Result<Reply, Fault>)
        ensures
            final(self)@ == old(self)@.receive(bytes@).0,
            reply_result_is(result, old(self)@.receive(bytes@).1),
    {
        match self.phase {
            Phase::AwaitingResponse(_) => match decode_response(bytes) {
                Some(response) => self.complete(response),
                None => {
                    self.phase = Phase::Faulted;
                    Err(Fault::Malformed)
                },
            },
            _ => Err(Fault::Unsolicited),
        }
    }
}

} // verus!
