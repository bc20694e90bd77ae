//! The console preview of a message about to be sent or drafted.
use vstd::prelude::*;
use crate::request::SendRequest;

verus! {

/// Number of body characters shown before the preview is cut short.
pub const PREVIEW_LIMIT: usize = 100;

/// What the preview shows of a body: the first hundred characters and an
/// ellipsis when it is longer, else the body itself.
pub open spec fn preview_of(body: Seq<char>) -> Seq<char> {
    if body.len() > PREVIEW_LIMIT {
        body.subrange(0, PREVIEW_LIMIT as int) + "..."@
    } else {
        body
    }
}

/// The body as the console preview shows it.
pub fn preview_body(body: &str) -> (r: String)
    ensures
        r@ == preview_of(body@),
{
    if body.unicode_len() > PREVIEW_LIMIT {
        let head = body.substring_char(0, PREVIEW_LIMIT);
        let mut r = head.to_string();
        r.append("...");
        r
    } else {
        body.to_string()
    }
}

/// The first console line: what is about to happen, and to whom.
pub open spec fn header_of(is_draft: bool, to: Seq<char>) -> Seq<char> {
    if is_draft {
        "Would create draft to: "@ + to
    } else {
        "Would send email to: "@ + to
    }
}

fn prefixed(prefix: &str, text: &str) -> (r: String)
    ensures
        r@ == prefix@ + text@,
{
    let mut r = prefix.to_string();
    r.append(text);
    r
}

/// The console lines that describe a request before it is dispatched: the
/// action and recipient, the subject, and the body preview.
pub fn console_lines(req: &SendRequest) -> (r: Vec<String>)
    ensures
        r@.len() == 3,
        r@[0]@ == header_of(req.is_draft, req.to@),
        r@[1]@ == "Subject: "@ + req.subject@,
        r@[2]@ == "Body: "@ + preview_of(req.body@),
{
    let header = if req.is_draft {
        prefixed("Would create draft to: ", req.to.as_str())
    } else {
        prefixed("Would send email to: ", req.to.as_str())
    };
    let subject = prefixed("Subject: ", req.subject.as_str());
    let shown = preview_body(req.body.as_str());
    let body = prefixed("Body: ", shown.as_str());
    let mut r: Vec<String> = Vec::new();
    r.push(header);
    r.push(subject);
    r.push(body);
    r
}

} // verus!
