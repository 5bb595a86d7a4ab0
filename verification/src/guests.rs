//! What the guest modules compute: the word-count plugin and the FaaS event
//! handler. Each turns its input text into the text it hands back to the host.
use vstd::prelude::*;
use vstd::string::*;
use crate::text::{contains, count_words, decimal, occurs_in, push_decimal, word_count};

verus! {

broadcast use vstd::string::group_string_axioms;

/// What the word-count plugin answers for `input`.
pub open spec fn word_count_message(input: Seq<char>) -> Seq<char> {
    "Word count: "@ + decimal(word_count(input))
}

/// The word-count plugin: reports how many white-space separated words
/// `input` holds, as `Word count: N`.
pub fn transform(input: &str) -> (out: String)
    ensures
        out@ == word_count_message(input@),
{
    let n = count_words(input);
    let mut out = String::from_str("Word count: ");
    push_decimal(&mut out, n as u64);
    out
}

/// The action the event handler takes.
#[derive(Debug, Clone, Copy, PartialEq, Eq)]
pub enum EventAction {
    OrderAccepted,
    WelcomeEmailQueued,
    RetryScheduled,
    UnknownEvent,
}

/// The action for an event payload: the first of the known event names that
/// the payload mentions anywhere decides, in the order `order.placed`,
/// `user.signup`, `payment.failed`.
pub open spec fn event_action(input: Seq<char>) -> EventAction {
    if occurs_in(input, "order.placed"@) {
        EventAction::OrderAccepted
    } else if occurs_in(input, "user.signup"@) {
        EventAction::WelcomeEmailQueued
    } else if occurs_in(input, "payment.failed"@) {
        EventAction::RetryScheduled
    } else {
        EventAction::UnknownEvent
    }
}

/// The name under which an action is reported.
pub open spec fn action_label(a: EventAction) -> Seq<char> {
    match a {
        EventAction::OrderAccepted => "ORDER_ACCEPTED"@,
        EventAction::WelcomeEmailQueued => "WELCOME_EMAIL_QUEUED"@,
        EventAction::RetryScheduled => "RETRY_SCHEDULED"@,
        EventAction::UnknownEvent => "UNKNOWN_EVENT"@,
    }
}

/// Decides the action for an event payload.
pub fn classify_event(input: &str) -> (a: EventAction)
    ensures
        a == event_action(input@),
{
    if contains(input, "order.placed") {
        EventAction::OrderAccepted
    } else if contains(input, "user.signup") {
        EventAction::WelcomeEmailQueued
    } else if contains(input, "payment.failed") {
        EventAction::RetryScheduled
    } else {
        EventAction::UnknownEvent
    }
}

/// The name under which `a` is reported.
pub fn action_name(a: EventAction) -> (s: &'static str)
    ensures
        s@ == action_label(a),
{
    match a {
        EventAction::OrderAccepted => "ORDER_ACCEPTED",
        EventAction::WelcomeEmailQueued => "WELCOME_EMAIL_QUEUED",
        EventAction::RetryScheduled => "RETRY_SCHEDULED",
        EventAction::UnknownEvent => "UNKNOWN_EVENT",
    }
}

/// The handler's JSON reply to a payload of `len` bytes whose text is `input`.
pub open spec fn event_reply(input: Seq<char>, len: nat) -> Seq<char> {
    "{\"status\":\"processed\",\"action\":\""@ + action_label(event_action(input))
        + "\",\"input_len\":"@ + decimal(len) + "}"@
}

/// The FaaS event handler: classifies the payload and answers with a JSON
/// object naming the action and the payload's length in bytes.
pub fn handle_event(input: &str) -> (out: String)
    ensures
        out@ == event_reply(input@, input.len() as nat),
{
    let action = classify_event(input);
    let len = input.len();
    let mut out = String::from_str("{\"status\":\"processed\",\"action\":\"");
    out.append(action_name(action));
    out.append("\",\"input_len\":");
    push_decimal(&mut out, len as u64);
    out.append("}");
    assert(out@ =~= event_reply(input@, input.len() as nat));
    out
}

/// The four actions are reported under four different names.
pub proof fn law_action_labels_distinct(a: EventAction, b: EventAction)
    requires
        a != b,
    ensures
        action_label(a) != action_label(b),
{
    reveal_strlit("ORDER_ACCEPTED");
    reveal_strlit("WELCOME_EMAIL_QUEUED");
    reveal_strlit("RETRY_SCHEDULED");
    reveal_strlit("UNKNOWN_EVENT");
    assert("ORDER_ACCEPTED"@[0] != "WELCOME_EMAIL_QUEUED"@[0]);
    assert("ORDER_ACCEPTED"@[0] != "RETRY_SCHEDULED"@[0]);
    assert("ORDER_ACCEPTED"@[0] != "UNKNOWN_EVENT"@[0]);
    assert("WELCOME_EMAIL_QUEUED"@[0] != "RETRY_SCHEDULED"@[0]);
    assert("WELCOME_EMAIL_QUEUED"@[0] != "UNKNOWN_EVENT"@[0]);
    assert("RETRY_SCHEDULED"@[0] != "UNKNOWN_EVENT"@[0]);
}

/// The reply to a payload of `len` bytes that names action `name`.
pub open spec fn reply_naming(name: Seq<char>, len: nat) -> Seq<char> {
    "{\"status\":\"processed\",\"action\":\""@ + name + "\",\"input_len\":"@ + decimal(len) + "}"@
}

/// A payload that mentions `order.placed` is answered with `ORDER_ACCEPTED`.
pub proof fn law_order_placed_reply(input: Seq<char>, len: nat)
    requires
        occurs_in(input, "order.placed"@),
    ensures
        event_reply(input, len) == reply_naming("ORDER_ACCEPTED"@, len),
{
}

/// A payload that mentions `user.signup` and not `order.placed` is answered
/// with `WELCOME_EMAIL_QUEUED`.
pub proof fn law_user_signup_reply(input: Seq<char>, len: nat)
    requires
        occurs_in(input, "user.signup"@),
        !occurs_in(input, "order.placed"@),
    ensures
        event_reply(input, len) == reply_naming("WELCOME_EMAIL_QUEUED"@, len),
{
}

/// A payload that mentions `payment.failed` and neither of the other two
/// events is answered with `RETRY_SCHEDULED`.
pub proof fn law_payment_failed_reply(input: Seq<char>, len: nat)
    requires
        occurs_in(input, "payment.failed"@),
        !occurs_in(input, "order.placed"@),
        !occurs_in(input, "user.signup"@),
    ensures
        event_reply(input, len) == reply_naming("RETRY_SCHEDULED"@, len),
{
}

/// A payload that mentions none of the three events is answered with
/// `UNKNOWN_EVENT`.
pub proof fn law_unknown_event_reply(input: Seq<char>, len: nat)
    requires
        !occurs_in(input, "order.placed"@),
        !occurs_in(input, "user.signup"@),
        !occurs_in(input, "payment.failed"@),
    ensures
        event_reply(input, len) == reply_naming("UNKNOWN_EVENT"@, len),
{
}

} // verus!
