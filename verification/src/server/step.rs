//! What the server does next for a client.
use vstd::prelude::*;
use vstd::utf8::{encode_utf8, is_ascii_chars_encode_utf8};

use crate::models::{ADBLocalCommand, LocalCommandView};
use crate::protocol::{
    fail, fail_reply, fail_reply_is_one_frame, okay_data, okay_data_reads_back, okay_data_reply,
    okay_twice, okay_word, parsed_hex_len, status_words_are_spelled_out,
};
use crate::server::forward::ForwardRequest;
use crate::server::request::{ReverseRequest, ReverseView};
use crate::server::wait_for::{Wait, WaitView};
use crate::text::opt_text;

verus! {

/// What the server does next for a client.
#[derive(Debug, PartialEq, Eq)]
pub enum Step {
    /// Get the device list and ask again with it.
    NeedDevices,
    /// Get the features of the chosen device and ask again with them.
    NeedCapabilities,
    /// Reply, and close the connection.
    Reply(Vec<u8>),
    /// Reply; the next request on the connection is for this device.
    Select { serial: String, reply: Vec<u8> },
    /// Reply, close the connection and shut the server down.
    Shutdown(Vec<u8>),
    /// Reply, then send a device list, long or short, whenever the devices change.
    Track { long: bool, reply: Vec<u8> },
    /// Wait.
    Wait(Wait),
    /// Let the backend connect a device, and reply with what it says.
    Connect(String),
    /// Let the backend disconnect a device, and reply with what it says.
    Disconnect(String),
    /// Get the features of this device, and reply with those that hold for it.
    DeviceFeatures(String),
    /// Bind the listener of a new rule for this device, and register the rule.
    Bind { serial: String, request: ForwardRequest },
    /// Stop these listeners, reply, and close the connection.
    Stop { listeners: Vec<u64>, reply: Vec<u8> },
    /// Hand a reverse request to the backend, and reply with what it says.
    Reverse(ReverseRequest),
    /// Refuse a service for this reason, unless the backend has a better one.
    Reject(String),
    /// Open this service on the chosen device and join it to the connection.
    Open(ADBLocalCommand),
}

/// The contents of a [`Step`].
pub enum StepView {
    NeedDevices,
    NeedCapabilities,
    Reply(Seq<u8>),
    Select { serial: Seq<char>, reply: Seq<u8> },
    Shutdown(Seq<u8>),
    Track { long: bool, reply: Seq<u8> },
    Wait(WaitView),
    Connect(Seq<char>),
    Disconnect(Seq<char>),
    DeviceFeatures(Seq<char>),
    Bind { serial: Seq<char>, request: ForwardRequest },
    Stop { listeners: Seq<u64>, reply: Seq<u8> },
    Reverse(ReverseView),
    Reject(Seq<char>),
    Open(LocalCommandView),
}

impl View for Step {
    type V = StepView;

    open spec fn view(&self) -> StepView {
        match self {
            Step::NeedDevices => StepView::NeedDevices,
            Step::NeedCapabilities => StepView::NeedCapabilities,
            Step::Reply(r) => StepView::Reply(r@),
            Step::Select { serial, reply } => StepView::Select { serial: serial@, reply: reply@ },
            Step::Shutdown(r) => StepView::Shutdown(r@),
            Step::Track { long, reply } => StepView::Track { long: *long, reply: reply@ },
            Step::Wait(w) => StepView::Wait(w@),
            Step::Connect(a) => StepView::Connect(a@),
            Step::Disconnect(a) => StepView::Disconnect(a@),
            Step::DeviceFeatures(s) => StepView::DeviceFeatures(s@),
            Step::Bind { serial, request } => StepView::Bind { serial: serial@, request: *request },
            Step::Stop { listeners, reply } => StepView::Stop {
                listeners: listeners@,
                reply: reply@,
            },
            Step::Reverse(r) => StepView::Reverse(r@),
            Step::Reject(r) => StepView::Reject(r@),
            Step::Open(c) => StepView::Open(c@),
        }
    }
}

/// `OKAY` and the text; a failure in the unlikely case that the text is too long.
pub open spec fn data_reply(s: Seq<char>) -> Seq<u8> {
    match okay_data_reply(s) {
        Some(r) => r,
        None => fail_reply("reply too large"@),
    }
}

/// The contents of an optional reply.
pub open spec fn opt_bytes(o: Option<Vec<u8>>) -> Option<Seq<u8>> {
    match o {
        Some(v) => Some(v@),
        None => None,
    }
}

/// The reply to a request that the backend answered with a text or with the reason for a
/// failure.
pub open spec fn status_told(result: Result<Seq<char>, Seq<char>>) -> Seq<u8> {
    match result {
        Ok(status) => data_reply(status),
        Err(reason) => fail_reply(reason),
    }
}

/// The reply to a request that the backend carried out or failed to.
pub open spec fn completion_told(failure: Option<Seq<char>>) -> Seq<u8> {
    match failure {
        None => okay_word() + okay_word(),
        Some(reason) => fail_reply(reason),
    }
}

/// The refusal of a service, with the backend's own reason where it has one.
pub open spec fn refusal_told(reason: Seq<char>, custom: Option<Seq<char>>) -> Seq<u8> {
    match custom {
        Some(c) => fail_reply(c),
        None => fail_reply(reason),
    }
}

/// The reply, or a failure if there is none because it would be too long.
pub fn reply_or_overflow(reply: Option<Vec<u8>>) -> (r: Vec<u8>)
    ensures
        r@ == (match opt_bytes(reply) {
            Some(b) => b,
            None => fail_reply("reply too large"@),
        }),
{
    match reply {
        Some(r) => r,
        None => fail("reply too large"),
    }
}

/// `OKAY` and the text.
pub fn reply_with(s: &str) -> (r: Vec<u8>)
    ensures
        r@ == data_reply(s@),
{
    reply_or_overflow(okay_data(s))
}

/// The reply to a request that the backend answered with a text or with the reason
/// for a failure.
pub fn status_reply(result: Result<String, String>) -> (r: Vec<u8>)
    ensures
        r@ == status_told(
            match result {
                Ok(status) => Ok(status@),
                Err(reason) => Err(reason@),
            },
        ),
{
    match result {
        Ok(status) => reply_with(status.as_str()),
        Err(reason) => fail(reason.as_str()),
    }
}

/// The reply to a request that the backend carried out or failed to.
pub fn done_reply(result: Result<(), String>) -> (r: Vec<u8>)
    ensures
        r@ == completion_told(
            match result {
                Ok(_) => None,
                Err(reason) => Some(reason@),
            },
        ),
{
    match result {
        Ok(_) => okay_twice(),
        Err(reason) => fail(reason.as_str()),
    }
}

/// The refusal of a service: the backend's own reason where it has one.
pub fn reject_reply(reason: &str, custom: &Option<String>) -> (r: Vec<u8>)
    ensures
        r@ == refusal_told(reason@, opt_text(*custom)),
{
    match custom {
        Some(c) => fail(c.as_str()),
        None => fail(reason),
    }
}

/// A reply with a text is `OKAY` and one frame with all of the text, for every text that a
/// frame can carry. For a longer one the client is told that it is too long.
pub proof fn data_replies_carry_their_text(s: Seq<char>)
    ensures
        encode_utf8(s).len() <= 0xffff ==> {
            let r = data_reply(s);
            &&& r.take(4) == encode_utf8("OKAY"@)
            &&& parsed_hex_len(r.subrange(4, 8)) == Some(encode_utf8(s).len())
            &&& r.skip(8) == encode_utf8(s)
        },
        encode_utf8(s).len() > 0xffff ==> {
            let r = data_reply(s);
            &&& r.take(4) == encode_utf8("FAIL"@)
            &&& r.skip(8) == encode_utf8("reply too large"@)
        },
{
    status_words_are_spelled_out();
    if encode_utf8(s).len() <= 0xffff {
        okay_data_reads_back(s);
    } else {
        reveal_strlit("reply too large");
        is_ascii_chars_encode_utf8("reply too large"@);
        fail_reply_is_one_frame("reply too large"@);
    }
}

/// What the backend answers reaches the client: its text behind `OKAY`, or its reason
/// behind `FAIL`. A request that it carried out is confirmed twice.
pub proof fn answers_of_the_backend_are_told(text: Seq<char>, reason: Seq<char>)
    requires
        encode_utf8(text).len() <= 0xffff,
        encode_utf8(reason).len() <= 0xffff,
    ensures
        status_told(Ok(text)).take(4) == encode_utf8("OKAY"@),
        status_told(Ok(text)).skip(8) == encode_utf8(text),
        status_told(Err(reason)).take(4) == encode_utf8("FAIL"@),
        status_told(Err(reason)).skip(8) == encode_utf8(reason),
        completion_told(None) == encode_utf8("OKAY"@) + encode_utf8("OKAY"@),
        completion_told(Some(reason)).take(4) == encode_utf8("FAIL"@),
        completion_told(Some(reason)).skip(8) == encode_utf8(reason),
{
    data_replies_carry_their_text(text);
    refusals_carry_their_reason(reason);
    status_words_are_spelled_out();
}

/// A service is refused with the backend's reason; the frontend's own is told only where
/// the backend gives none.
pub proof fn refusals_give_the_reason_of_the_backend(reason: Seq<char>, custom: Seq<char>)
    requires
        encode_utf8(reason).len() <= 0xffff,
        encode_utf8(custom).len() <= 0xffff,
    ensures
        refusal_told(reason, Some(custom)).take(4) == encode_utf8("FAIL"@),
        refusal_told(reason, Some(custom)).skip(8) == encode_utf8(custom),
        refusal_told(reason, None).take(4) == encode_utf8("FAIL"@),
        refusal_told(reason, None).skip(8) == encode_utf8(reason),
{
    refusals_carry_their_reason(reason);
    refusals_carry_their_reason(custom);
}

/// A refusal is `FAIL` and one frame with the reason, for every reason that a frame can
/// carry.
pub proof fn refusals_carry_their_reason(reason: Seq<char>)
    requires
        encode_utf8(reason).len() <= 0xffff,
    ensures
        fail_reply(reason).take(4) == encode_utf8("FAIL"@),
        parsed_hex_len(fail_reply(reason).subrange(4, 8)) == Some(encode_utf8(reason).len()),
        fail_reply(reason).skip(8) == encode_utf8(reason),
{
    status_words_are_spelled_out();
    fail_reply_is_one_frame(reason);
}

} // verus!
