//! What the registry answers when a write finds nothing to change, and
//! where the server listens.

use vstd::prelude::*;
use vstd::string::StringExecFns;
use crate::text::decimal;
use crate::text::spec_decimal;

verus! {

/// Status of a request that was served.
pub const OK: u16 = 200;

/// Status of a request that created a record.
pub const CREATED: u16 = 201;

/// Status of a request that was served and has nothing to show.
pub const NO_CONTENT: u16 = 204;

/// Status of a request for a record that is not there.
pub const NOT_FOUND: u16 = 404;

/// Port the server listens on when none is configured.
pub const DEFAULT_PORT: u16 = 3001;

/// A status with the words that go with it.
#[derive(Clone, Debug, PartialEq, Eq)]
pub struct Reply {
    pub status: u16,
    pub message: String,
}

/// A reply as contracts speak of it.
pub struct ReplyView {
    pub status: u16,
    pub message: Seq<char>,
}

impl View for Reply {
    type V = ReplyView;

    open spec fn view(&self) -> ReplyView {
        ReplyView { status: self.status, message: self.message@ }
    }
}

/// The answer to an update that changed `affected` rows of the participant
/// `id`: nothing to say when the participant was there, not found
/// otherwise.
pub open spec fn spec_update_reply(affected: u64, id: i32) -> Option<ReplyView> {
    if affected == 0 {
        Some(
            ReplyView {
                status: NOT_FOUND,
                message: "Participant with ID "@ + spec_decimal(id as int)
                    + " not found to update"@,
            },
        )
    } else {
        None
    }
}

/// The answer to a deletion that removed `affected` rows of the
/// participant `id`.
pub open spec fn spec_delete_reply(affected: u64, id: i32) -> ReplyView {
    if affected == 0 {
        ReplyView {
            status: NOT_FOUND,
            message: "Participant with ID "@ + spec_decimal(id as int) + " not found"@,
        }
    } else {
        ReplyView { status: NO_CONTENT, message: Seq::empty() }
    }
}

/// The answer to an enrolment that added `affected` rows: created when the
/// participant was new to the group.
pub open spec fn spec_enrolment_reply(affected: u64) -> ReplyView {
    if affected > 0 {
        ReplyView { status: CREATED, message: "Participant added to group successfully."@ }
    } else {
        ReplyView { status: OK, message: "Participant was already in this group."@ }
    }
}

/// A reply that is there or not, as contracts speak of it.
pub open spec fn opt_reply_view(reply: Option<Reply>) -> Option<ReplyView> {
    match reply {
        Some(reply) => Some(reply@),
        None => None,
    }
}

/// The answer to an update that changed `affected` rows of the participant
/// `id`, if there is anything to say.
pub fn update_reply(affected: u64, id: i32) -> (reply: Option<Reply>)
    ensures
        opt_reply_view(reply) == spec_update_reply(affected, id),
{
    if affected == 0 {
        let mut message = String::from_str("Participant with ID ");
        message.append(decimal(id as i64).as_str());
        message.append(" not found to update");
        Some(Reply { status: NOT_FOUND, message })
    } else {
        None
    }
}

/// The answer to a deletion that removed `affected` rows of the
/// participant `id`.
pub fn delete_reply(affected: u64, id: i32) -> (reply: Reply)
    ensures
        reply@ == spec_delete_reply(affected, id),
{
    if affected == 0 {
        let mut message = String::from_str("Participant with ID ");
        message.append(decimal(id as i64).as_str());
        message.append(" not found");
        Reply { status: NOT_FOUND, message }
    } else {
        Reply { status: NO_CONTENT, message: String::new() }
    }
}

/// The answer to an enrolment that added `affected` rows.
pub fn enrolment_reply(affected: u64) -> (reply: Reply)
    ensures
        reply@ == spec_enrolment_reply(affected),
{
    if affected > 0 {
        Reply {
            status: CREATED,
            message: String::from_str("Participant added to group successfully."),
        }
    } else {
        Reply { status: OK, message: String::from_str("Participant was already in this group.") }
    }
}

/// The number that `text` denotes as a port; `None` when it denotes none.
pub uninterp spec fn parsed_port(text: Seq<char>) -> Option<u16>;

/// Calls `str::parse` for `u16`, which reads an optional plus sign and
/// decimal digits and fails on anything else and on a number above 65,535.
/// The outcome is named `parsed_port`, an error standing as `None`.
#[verifier::external_body]
fn parse_port(text: &str) -> (port: Option<u16>)
    ensures
        port == parsed_port(text@),
{
    text.parse::<u16>().ok()
}

/// The port to listen on: the configured one if it is a port number, the
/// default otherwise.
pub open spec fn spec_listen_port(configured: Option<Seq<char>>) -> u16 {
    match configured {
        None => DEFAULT_PORT,
        Some(text) => match parsed_port(text) {
            Some(port) => port,
            None => DEFAULT_PORT,
        },
    }
}

/// The port to listen on, given what is configured.
pub fn listen_port(configured: Option<&str>) -> (port: u16)
    ensures
        port == spec_listen_port(crate::text::text_of(configured)),
{
    match configured {
        None => DEFAULT_PORT,
        Some(text) => match parse_port(text) {
            Some(port) => port,
            None => DEFAULT_PORT,
        },
    }
}

/// The address to bind: every interface, at `port`.
pub fn listen_address(port: u16) -> (address: String)
    ensures
        address@ == "0.0.0.0:"@ + spec_decimal(port as int),
{
    let mut address = String::from_str("0.0.0.0:");
    address.append(decimal(port as i64).as_str());
    address
}

} // verus!
