//! The tax-calculation step: interpretation of the rate service's reply
//! and the responses of the compute pipeline.
//!
//! The outbound call, the decimal parse of the rate text and the
//! floating-point arithmetic happen outside the verified core; this module
//! decides everything around them.  A reply is usable exactly when its HTTP
//! status is 200; any other outcome — no reply, another status, or a rate
//! text the caller cannot parse — is one uniform lookup failure, answered
//! with the envelope that names the offending zip code.

use vstd::prelude::*;
use vstd::string::StringExecFns;
use crate::decode::error_envelope;
use crate::decode::error_envelope_text;
use crate::response::HttpResponse;
use crate::response::cors_header_seq;
use crate::response::is_cors_response;
use crate::response::response_build;
use crate::strutil::contains_sub;
use crate::strutil::find_from;
use crate::strutil::match_at;

verus! {

/// What came back from the outbound rate lookup.
pub enum RateReply {
    /// The rate service answered with this HTTP status and body text.
    Reply { status: u16, body: String },
    /// The outbound call failed before any reply arrived.
    NoReply,
}

/// What to do with a rate-lookup outcome.
pub enum RateStep {
    /// The reply is usable: parse this text as the decimal rate and total
    /// the order.
    ApplyRate { rate_text: String },
    /// Lookup failure: answer with the zip-code error envelope.
    Reject,
}

/// A reply is usable exactly when its status is 200.
pub open spec fn reply_usable(reply: RateReply) -> bool {
    reply matches RateReply::Reply { status, .. } && status == 200
}

/// Decides what to do with the rate service's reply: the body of a 200
/// reply is the rate text to apply; everything else is rejected.
pub fn interpret_rate_reply(reply: RateReply) -> (s: RateStep)
    ensures
        match reply {
            RateReply::Reply { status, body } => {
                if status == 200 {
                    s matches RateStep::ApplyRate { rate_text } && rate_text@ == body@
                } else {
                    s is Reject
                }
            },
            RateReply::NoReply => s is Reject,
        },
{
    match reply {
        RateReply::Reply { status, body } => {
            if status == 200 {
                RateStep::ApplyRate { rate_text: body }
            } else {
                RateStep::Reject
            }
        },
        RateReply::NoReply => RateStep::Reject,
    }
}

/// The message of the lookup-failure envelope, naming the zip code.
pub open spec fn zip_failure_message(zip: Seq<char>) -> Seq<char> {
    "The zip code ("@ + zip + ") in the order does not have a corresponding sales tax rate."@
}

/// The response to a failed rate lookup: the zip-code error envelope
/// behind the CORS headers.
pub fn rate_failure_response(zip: &str) -> (r: HttpResponse)
    ensures
        is_cors_response(r, error_envelope_text(zip_failure_message(zip@))),
{
    let mut msg = "The zip code (".to_owned();
    msg.append(zip);
    msg.append(") in the order does not have a corresponding sales tax rate.");
    let body = error_envelope(msg.as_str());
    response_build(body.as_str())
}

/// The response to an unexpected internal failure, such as an output that
/// could not be serialized: a generic error envelope, status 500.
pub fn internal_error_response() -> (r: HttpResponse)
    ensures
        r.status == 500,
        cors_header_seq(r.headers@),
        r.body@ == error_envelope_text("unexpected internal failure"@),
{
    let body = error_envelope("unexpected internal failure");
    let mut r = response_build(body.as_str());
    r.status = 500;
    r
}

/// How the caller's work on a usable rate text ended.
pub enum TotalOutcome {
    /// The rate parsed, the total was computed, and the updated order
    /// serialized to this text.
    Serialized(String),
    /// The rate text was not a decimal number.
    RateUnparseable,
    /// The updated order could not be serialized.
    SerializeFailed,
}

/// Finishes the compute pipeline once the rate service's reply was usable:
/// a serialized order is the success body; a rate text that would not
/// parse is one more lookup failure; a serialization failure is an
/// unexpected internal one.
pub fn finish_compute(zip: &str, outcome: TotalOutcome) -> (r: HttpResponse)
    ensures
        outcome matches TotalOutcome::Serialized(j) ==> is_cors_response(r, j@),
        outcome is RateUnparseable ==> is_cors_response(
            r,
            error_envelope_text(zip_failure_message(zip@)),
        ),
        outcome is SerializeFailed ==> r.status == 500 && cors_header_seq(r.headers@)
            && r.body@ == error_envelope_text("unexpected internal failure"@),
{
    match outcome {
        TotalOutcome::Serialized(j) => response_build(j.as_str()),
        TotalOutcome::RateUnparseable => rate_failure_response(zip),
        TotalOutcome::SerializeFailed => internal_error_response(),
    }
}

/// A pattern standing between two other pieces is found: `find_from` from
/// any position at or before the pattern answers some occurrence.
proof fn lemma_find_from_finds(s: Seq<char>, p: Seq<char>, i: int, j: int)
    requires
        0 <= i <= j,
        match_at(s, p, j),
    ensures
        find_from(s, p, i) is Some,
    decreases j - i,
{
    if i == j {
    } else if match_at(s, p, i) {
    } else {
        lemma_find_from_finds(s, p, i + 1, j);
    }
}

/// The lookup-failure body names the offending zip code: the envelope text
/// built for `zip` contains `zip` itself as a substring.
pub proof fn lemma_failure_body_names_zip(zip: Seq<char>)
    ensures
        contains_sub(error_envelope_text(zip_failure_message(zip)), zip),
{
    let a = "{\"status\":\"error\", \"message\":\""@ + "The zip code ("@;
    let b = ") in the order does not have a corresponding sales tax rate."@ + "\"}"@;
    let s = error_envelope_text(zip_failure_message(zip));
    assert(s =~= a + zip + b);
    assert forall|k: int| 0 <= k < zip.len() implies (a + zip + b)[a.len() + k] == zip[k] by {
        assert((a + zip)[a.len() + k] == zip[k]);
    }
    assert(match_at(s, zip, a.len() as int));
    lemma_find_from_finds(s, zip, 0, a.len() as int);
}

/// No state survives a request: the decisions of the compute pipeline are
/// functions of the decoded order's zip code and the rate reply alone, so
/// two requests that agree on both are decided alike.
pub proof fn lemma_compute_deterministic(
    zip1: Seq<char>,
    zip2: Seq<char>,
    r1: RateReply,
    r2: RateReply,
)
    requires
        zip1 == zip2,
        r1 == r2,
    ensures
        reply_usable(r1) == reply_usable(r2),
        error_envelope_text(zip_failure_message(zip1)) == error_envelope_text(
            zip_failure_message(zip2),
        ),
{
}

} // verus!
