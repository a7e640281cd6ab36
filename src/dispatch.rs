//! Routing of an incoming message by its declared `_type`.

use crate::outcome::{OwnTracksError, ResponseStatus};
use vstd::prelude::*;
use vstd::string::*;

verus! {

/// The kinds of message that have a handler.
#[derive(Clone, Copy, Debug, PartialEq, Eq, Structural)]
pub enum MessageKind {
    Location,
    Status,
}

/// What to do with an incoming message.
#[derive(Clone, Copy, Debug, PartialEq, Eq, Structural)]
pub enum Dispatch {
    /// Store it as a location report.
    HandleLocation,
    /// Read it as a device status report.
    HandleStatus,
    /// Answer at once: the envelope was unreadable, or its type has no handler.
    Respond(ResponseStatus),
}

pub open spec fn location_type() -> Seq<char> {
    seq!['l', 'o', 'c', 'a', 't', 'i', 'o', 'n']
}

pub open spec fn status_type() -> Seq<char> {
    seq!['s', 't', 'a', 't', 'u', 's']
}

/// The handler for a declared message type, if there is one.
pub open spec fn kind_of(message_type: Seq<char>) -> Option<MessageKind> {
    if message_type == location_type() {
        Some(MessageKind::Location)
    } else if message_type == status_type() {
        Some(MessageKind::Status)
    } else {
        None
    }
}

/// The decision for an envelope; `None` stands for one that is not valid JSON
/// or has no `_type`.
pub open spec fn dispatch_of(message_type: Option<Seq<char>>) -> Dispatch {
    match message_type {
        None => Dispatch::Respond(ResponseStatus::UnprocessableEntity),
        Some(t) => match kind_of(t) {
            Some(MessageKind::Location) => Dispatch::HandleLocation,
            Some(MessageKind::Status) => Dispatch::HandleStatus,
            None => Dispatch::Respond(ResponseStatus::BadRequest),
        },
    }
}

pub(crate) fn same_text(a: &str, b: &str) -> (r: bool)
    ensures
        r == (a@ == b@),
{
    let n = a.unicode_len();
    if n != b.unicode_len() {
        return false;
    }
    let mut i: usize = 0;
    while i < n
        invariant
            n == a@.len() == b@.len(),
            i <= n,
            a@.subrange(0, i as int) == b@.subrange(0, i as int),
        decreases n - i,
    {
        if a.get_char(i) != b.get_char(i) {
            assert(a@[i as int] != b@[i as int]);
            return false;
        }
        assert(a@.subrange(0, i + 1) =~= a@.subrange(0, i as int).push(a@[i as int]));
        assert(b@.subrange(0, i + 1) =~= b@.subrange(0, i as int).push(b@[i as int]));
        i = i + 1;
    }
    assert(a@ =~= a@.subrange(0, n as int));
    assert(b@ =~= b@.subrange(0, n as int));
    true
}

/// The handler for a declared message type: `location` and `status` have
/// one, any other type none.
pub fn classify_message_type(message_type: &str) -> (r: Option<MessageKind>)
    ensures
        r == kind_of(message_type@),
{
    proof {
        reveal_strlit("location");
        reveal_strlit("status");
    }
    if same_text(message_type, "location") {
        assert("location"@ =~= location_type());
        Some(MessageKind::Location)
    } else if same_text(message_type, "status") {
        assert("status"@ =~= status_type());
        assert(message_type@ != location_type());
        Some(MessageKind::Status)
    } else {
        assert("location"@ =~= location_type());
        assert("status"@ =~= status_type());
        None
    }
}

/// Decides how an envelope is handled: an unreadable one is unprocessable,
/// one whose type has no handler is a bad request (distinct from a parsing
/// failure), the others go to their handler.
pub fn dispatch(message_type: Option<&str>) -> (r: Dispatch)
    ensures
        r == dispatch_of(
            match message_type {
                Some(t) => Some(t@),
                None => None,
            },
        ),
{
    match message_type {
        None => Dispatch::Respond(ResponseStatus::UnprocessableEntity),
        Some(t) => match classify_message_type(t) {
            Some(MessageKind::Location) => Dispatch::HandleLocation,
            Some(MessageKind::Status) => Dispatch::HandleStatus,
            None => Dispatch::Respond(ResponseStatus::BadRequest),
        },
    }
}

/// The result of handling a status report: it is only logged, so the one
/// failure is a body that does not read as a status report.
pub fn status_report_outcome(parsed: bool) -> (r: Result<(), OwnTracksError>)
    ensures
        r == (if parsed {
            Ok::<(), OwnTracksError>(())
        } else {
            Err::<(), OwnTracksError>(OwnTracksError::RequestBodyParsingError)
        }),
{
    if parsed {
        Ok(())
    } else {
        Err(OwnTracksError::RequestBodyParsingError)
    }
}

} // verus!
