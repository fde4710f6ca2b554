//! Translation of decoder failures into the error envelope.
//!
//! A parse failure that mentions a missing field gets a readability
//! transform: the text is lowercased, backticks are dropped, underscores
//! become spaces, and everything from just before the first occurrence of
//! "at" on is cut away (it is location noise).  Every other failure text is
//! passed through untouched.

use vstd::prelude::*;
use vstd::string::StrSliceExecFns;
use vstd::string::StringExecFns;
use crate::response::HttpResponse;
use crate::response::is_cors_response;
use crate::response::response_build;
use crate::strutil::contains_str;
use crate::strutil::contains_sub;
use crate::strutil::find_from;
use crate::strutil::find_str;
use crate::strutil::find_sub;
use crate::strutil::lower_of;
use crate::strutil::lowercase;
use crate::strutil::match_at;
use crate::strutil::push_char;

verus! {

/// One pass of the readability transform: backticks dropped, underscores
/// replaced by spaces, every other character kept.
pub open spec fn cleaned(s: Seq<char>) -> Seq<char>
    decreases s.len(),
{
    if s.len() == 0 {
        Seq::empty()
    } else {
        let rest = cleaned(s.drop_last());
        if s.last() == '`' {
            rest
        } else if s.last() == '_' {
            rest.push(' ')
        } else {
            rest.push(s.last())
        }
    }
}

/// Whether a failure text mentions a missing field.
pub open spec fn mentions_missing_field(raw: Seq<char>) -> bool {
    contains_sub(raw, "missing field"@)
}

/// The transform applied to the lowered form of a missing-field message:
/// backticks dropped, underscores spaced, and the text cut just before the
/// first occurrence of "at" if there is one.
pub open spec fn missing_field_text(lowered: Seq<char>) -> Seq<char> {
    let t = cleaned(lowered);
    match find_sub(t, "at"@) {
        Some(i) => t.subrange(0, if i >= 1 { i - 1 } else { 0 }),
        None => t,
    }
}

/// What the sanitizer returns: the raw text untouched, unless it mentions a
/// missing field, in which case the readability transform of its lowered
/// form.
pub open spec fn sanitized(raw: Seq<char>, lowered: Seq<char>) -> Seq<char> {
    if mentions_missing_field(raw) {
        missing_field_text(lowered)
    } else {
        raw
    }
}

/// Applies the readability transform character by character.
fn clean(s: &str) -> (r: String)
    ensures
        r@ == cleaned(s@),
{
    let n = s.unicode_len();
    let mut out = String::new();
    let mut i: usize = 0;
    while i < n
        invariant
            n == s@.len(),
            i <= n,
            out@ == cleaned(s@.subrange(0, i as int)),
        decreases n - i,
    {
        let c = s.get_char(i);
        if c == '`' {
        } else if c == '_' {
            push_char(&mut out, ' ');
        } else {
            push_char(&mut out, c);
        }
        proof {
            let pre = s@.subrange(0, i + 1);
            assert(pre.drop_last() =~= s@.subrange(0, i as int));
            assert(pre.last() == s@[i as int]);
        }
        i = i + 1;
    }
    proof {
        assert(s@.subrange(0, n as int) =~= s@);
    }
    out
}

/// A found occurrence lies within the text: `find_from` answers `Some(j)`
/// only where the pattern matches at `j`.
proof fn lemma_find_from_some(s: Seq<char>, p: Seq<char>, i: int, j: int)
    requires
        find_from(s, p, i) == Some(j),
    ensures
        match_at(s, p, j),
        i <= j,
    decreases s.len() - i,
{
    if i < 0 || i + p.len() > s.len() {
    } else if match_at(s, p, i) {
    } else {
        lemma_find_from_some(s, p, i + 1, j);
    }
}

/// Sanitizes a decoder failure text for human readers.
pub fn sanitize_error_text(raw: &str) -> (r: String)
    ensures
        r@ == sanitized(raw@, lower_of(raw@)),
{
    if contains_str(raw, "missing field") {
        let lowered = lowercase(raw);
        let t = clean(lowered.as_str());
        match find_str(t.as_str(), "at") {
            Some(i) => {
                let cut: usize = if i >= 1 {
                    i - 1
                } else {
                    0
                };
                proof {
                    lemma_find_from_some(t@, "at"@, 0, i as int);
                }
                let p = t.as_str().substring_char(0, cut);
                p.to_owned()
            },
            None => t,
        }
    } else {
        raw.to_owned()
    }
}

/// The error envelope around a message.
pub open spec fn error_envelope_text(msg: Seq<char>) -> Seq<char> {
    "{\"status\":\"error\", \"message\":\""@ + msg + "\"}"@
}

/// Wraps a message in the error envelope.
pub fn error_envelope(msg: &str) -> (r: String)
    ensures
        r@ == error_envelope_text(msg@),
{
    let mut r = "{\"status\":\"error\", \"message\":\"".to_owned();
    r.append(msg);
    r.append("\"}");
    r
}

/// The complete reaction to a decoder failure: the sanitized text, wrapped
/// in the error envelope, behind the CORS headers.
pub fn decode_failure_response(err_text: &str) -> (r: HttpResponse)
    ensures
        is_cors_response(
            r,
            error_envelope_text(sanitized(err_text@, lower_of(err_text@))),
        ),
{
    let msg = sanitize_error_text(err_text);
    let body = error_envelope(msg.as_str());
    response_build(body.as_str())
}

} // verus!
