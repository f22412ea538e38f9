//! Whole exchanges: a callback, the request it makes, the server's answer and
//! the reply that results; and what holds of them whatever the server is.

use vstd::prelude::*;
use crate::adapter::{setattr_request, Fault, Phase, PyxisView, ENOTCONN};
use crate::attr::{FileAttr, Timestamp};
use crate::listing::{offers, ListingView, OfferView};
use crate::message::{DirEntryView, Operation, RequestView, ResponseView};
use crate::reply::{attr_reply, reply_to, Call, ReplyView};
use crate::session::{handshake_of, StartupError};
use crate::wire::frame::{
    lemma_request, lemma_response, request_fits, request_of, response_fits, response_of,
    ser_request, ser_response,
};

verus! {

/// How a callback ended.
pub enum Outcome {
    /// No request went out; the kernel gets this code.
    Refused(i32),
    /// The exchange took place; the kernel gets this reply.
    Replied(ReplyView),
    /// The exchange broke the session.
    Failed(Fault),
}

/// One callback served from beginning to end: `request` is what the
/// callback's arguments make, and `serve` is the server, which answers every
/// request with a response.
pub open spec fn exchange(
    fs: PyxisView,
    call: Call,
    request: Option<RequestView>,
    serve: spec_fn(RequestView) -> ResponseView,
) -> (PyxisView, Outcome) {
    let (waiting, issued) = fs.dispatch(call, request);
    match issued {
        Err(code) => (waiting, Outcome::Refused(code)),
        Ok(sent) => {
            let (after, result) = waiting.settle(serve(sent));
            match result {
                Ok(reply) => (after, Outcome::Replied(reply)),
                Err(fault) => (after, Outcome::Failed(fault)),
            }
        },
    }
}

/// The same callback with every message carried as bytes: the request is
/// encoded, the server decodes it, and its response comes back encoded.
pub open spec fn exchange_in_bytes(
    fs: PyxisView,
    call: Call,
    request: Option<RequestView>,
    serve: spec_fn(RequestView) -> ResponseView,
) -> (PyxisView, Outcome) {
    let (waiting, issued) = fs.dispatch(call, request);
    match issued {
        Err(code) => (waiting, Outcome::Refused(code)),
        Ok(sent) => {
            let received = request_of(ser_request(sent));
            let answer = if received is Some {
                ser_response(serve(received.unwrap()))
            } else {
                Seq::<u8>::empty()
            };
            let (after, result) = waiting.receive(answer);
            match result {
                Ok(reply) => (after, Outcome::Replied(reply)),
                Err(fault) => (after, Outcome::Failed(fault)),
            }
        },
    }
}

/// A success is accepted only from the operation that was asked for: whatever
/// the callback, a response becomes a reply exactly when it is the success
/// paired with the callback's operation or the error response. The error
/// response hands its code on unchanged, and a rejected response is reported
/// with the operation that was asked for and the one that answered.
pub proof fn success_is_paired(call: Call, response: ResponseView)
    ensures
        reply_to(call, response) is Ok <==> response.may_answer(call.operation()),
        response matches ResponseView::Error(code) ==> reply_to(call, response) == Ok::<
            ReplyView,
            crate::reply::Violation,
        >(ReplyView::Error(code)),
        reply_to(call, response) matches Err(violation) ==> violation.expected == call.operation()
            && response.answers() == Some(violation.received) && violation.received
            != violation.expected,
{
}

/// The mount handshake accepts the mount response and nothing else; the error
/// response refuses the mount with its code.
pub proof fn mount_is_paired(response: ResponseView)
    ensures
        handshake_of(response) is Ok <==> response.answers() == Some(Operation::Mount),
        response matches ResponseView::Error(code) ==> handshake_of(response) == Err::<
            Seq<char>,
            StartupError,
        >(StartupError::Refused(code)),
{
}

/// A response that breaks the protocol ends the session, and so do bytes that
/// are no response: the adapter is faulted, and from then on every callback
/// is refused and nothing changes any more.
pub proof fn fault_is_final(
    fs: PyxisView,
    call: Call,
    response: ResponseView,
    bytes: Seq<u8>,
    next: Call,
    request: Option<RequestView>,
)
    requires
        fs.phase == Phase::AwaitingResponse(call),
        !response.may_answer(call.operation()),
        response_of(bytes) is None,
    ensures
        fs.settle(response).0 == fs.at(Phase::Faulted),
        fs.settle(response).1 is Err,
        fs.receive(bytes) == (fs.at(Phase::Faulted), Err::<ReplyView, Fault>(Fault::Malformed)),
        fs.at(Phase::Faulted).dispatch(next, request) == (
            fs.at(Phase::Faulted),
            Err::<RequestView, i32>(ENOTCONN),
        ),
        fs.at(Phase::Faulted).settle(response).0 == fs.at(Phase::Faulted),
        fs.at(Phase::Faulted).receive(bytes).0 == fs.at(Phase::Faulted),
{
}

/// Nothing is lost on the wire: the bytes of a request read back as that
/// request, and the bytes of a response as that response.
pub proof fn wire_round_trip(request: RequestView, response: ResponseView)
    requires
        request_fits(request),
        response_fits(response),
    ensures
        request_of(ser_request(request)) == Some(request),
        response_of(ser_response(response)) == Some(response),
{
    lemma_request(request, Seq::<u8>::empty());
    assert(ser_request(request) + Seq::<u8>::empty() =~= ser_request(request));
    lemma_response(response, Seq::<u8>::empty());
    assert(ser_response(response) + Seq::<u8>::empty() =~= ser_response(response));
}

/// Carrying the messages as bytes changes nothing: a callback served through
/// encoding and decoding ends as it does when the messages are handed over
/// as they are.
pub proof fn bytes_change_nothing(
    fs: PyxisView,
    call: Call,
    request: Option<RequestView>,
    serve: spec_fn(RequestView) -> ResponseView,
)
    requires
        request matches Some(r) ==> request_fits(r) && response_fits(serve(r)),
    ensures
        exchange_in_bytes(fs, call, request, serve) == exchange(fs, call, request, serve),
{
    let (waiting, issued) = fs.dispatch(call, request);
    match issued {
        Err(_) => {},
        Ok(sent) => {
            wire_round_trip(sent, serve(sent));
        },
    }
}

/// Asking twice gives the same: against a server that answers the same
/// request with the same response, a second `Getattr` of an inode is replied
/// to exactly as the first, and the adapter is left as it was.
pub proof fn getattr_is_idempotent(
    fs: PyxisView,
    ino: u64,
    serve: spec_fn(RequestView) -> ResponseView,
)
    requires
        fs.phase == Phase::Idle,
    ensures
        ({
            let first = exchange(fs, Call::Getattr, Some(RequestView::Getattr(ino)), serve);
            let second = exchange(first.0, Call::Getattr, Some(RequestView::Getattr(ino)), serve);
            first.1 is Replied ==> second == first && first.0 == fs
        }),
{
}

/// A listing resumed at its end is an empty success: when the offset is the
/// number of entries, or lies beyond it, the reply is a listing that offers
/// nothing, and no error.
pub proof fn listing_at_end_is_empty(entries: Seq<DirEntryView>, offset: i64)
    requires
        offset >= entries.len(),
    ensures
        offers(entries, offset) == Seq::<OfferView>::empty(),
        reply_to(Call::ReadDir(offset), ResponseView::ReadDir(entries)) matches Ok(
            ReplyView::Directory(listing),
        ) && listing.current() is None && listing.delivered() == Seq::<OfferView>::empty(),
{
    assert(offers(entries, offset) =~= Seq::<OfferView>::empty());
    let listing = ListingView {
        entries,
        start: entries.len(),
        next: entries.len(),
        stopped: false,
    };
    assert(listing.delivered() =~= Seq::<OfferView>::empty());
}

/// A listing hands on every entry from the offset on, each under the number
/// that follows its position, so that a listing resumed at the number of the
/// last entry taken goes on just behind it.
pub proof fn listing_resumes_behind(entries: Seq<DirEntryView>, offset: i64, k: int)
    requires
        0 <= offset,
        0 <= k,
        offset + k < entries.len(),
        entries.len() <= i64::MAX,
    ensures
        offers(entries, offset).len() == entries.len() - offset,
        offers(entries, offset)[k].offset == offset + k + 1,
        offers(entries, offset)[k].ino == entries[offset + k].ino,
        offers(entries, offset)[k].kind == entries[offset + k].kind,
        offers(entries, offset)[k].name == entries[offset + k].name,
        offers(entries, offers(entries, offset)[k].offset) =~= offers(entries, offset).skip(k + 1),
{
}

/// A short read is a success: whatever number of bytes was asked for, the
/// bytes that the server returns are the reply, as they are.
pub proof fn short_read_is_forwarded(
    fs: PyxisView,
    ino: u64,
    offset: i64,
    size: u32,
    data: Seq<u8>,
    serve: spec_fn(RequestView) -> ResponseView,
)
    requires
        fs.phase == Phase::Idle,
        serve(RequestView::Read(ino, offset, size)) == ResponseView::Read(data),
    ensures
        exchange(fs, Call::Read, Some(RequestView::Read(ino, offset, size)), serve) == (
            fs,
            Outcome::Replied(ReplyView::Data(data)),
        ),
{
}

/// Setting nothing asks for nothing: with every field unset the request
/// carries no change, whatever the clock reads, and the attributes that the
/// server returns are the reply, unchanged. Where the server returns the
/// inode's current attributes, the reply is that of a `Getattr`.
pub proof fn setattr_of_nothing(
    fs: PyxisView,
    ino: u64,
    now: Timestamp,
    current: FileAttr,
    serve: spec_fn(RequestView) -> ResponseView,
)
    requires
        fs.phase == Phase::Idle,
        serve(RequestView::Getattr(ino)) == ResponseView::Getattr(current),
        serve(
            setattr_request(
                ino,
                None,
                None,
                None,
                None,
                None,
                None,
                None,
                None,
                None,
                None,
                None,
                None,
                now,
            ),
        ) == ResponseView::Setattr(current),
    ensures
        setattr_request(
            ino,
            None,
            None,
            None,
            None,
            None,
            None,
            None,
            None,
            None,
            None,
            None,
            None,
            now,
        ) matches RequestView::Setattr(i, changes) && i == ino && changes.is_empty(),
        exchange(
            fs,
            Call::Setattr,
            Some(
                setattr_request(
                    ino,
                    None,
                    None,
                    None,
                    None,
                    None,
                    None,
                    None,
                    None,
                    None,
                    None,
                    None,
                    None,
                    now,
                ),
            ),
            serve,
        ) == (fs, Outcome::Replied(attr_reply(current))),
        exchange(fs, Call::Getattr, Some(RequestView::Getattr(ino)), serve) == (
            fs,
            Outcome::Replied(attr_reply(current)),
        ),
{
}

} // verus!
