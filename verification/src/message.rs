//! Composition of the final commit-message string.

use vstd::prelude::*;
use crate::commit_type::CommitType;

verus! {

/// The marker appended to the type key when the change is urgent (breaking):
/// a single exclamation point, or nothing.
pub open spec fn urgency_marker_spec(urgent: bool) -> Seq<char> {
    if urgent {
        "!"@
    } else {
        Seq::<char>::empty()
    }
}

/// The view of an optional body: an absent body stays absent, a present one
/// (even an empty string) is kept, to be rendered as a second paragraph.
pub open spec fn body_view(body: Option<String>) -> Option<Seq<char>> {
    match body {
        Option::None => Option::None,
        Option::Some(b) => Option::Some(b@),
    }
}

/// The composed message: the key, the urgency marker, a colon and a space,
/// and the subject; a present body follows after a blank line. Subject and
/// body text is passed through verbatim.
pub open spec fn compose_spec(
    commit_type: CommitType,
    urgent: bool,
    message: Seq<char>,
    body: Option<Seq<char>>,
) -> Seq<char> {
    let head = commit_type.key_spec() + urgency_marker_spec(urgent) + ": "@ + message;
    match body {
        Option::None => head,
        Option::Some(b) => head + "\n\n"@ + b,
    }
}

/// Builds the commit message for the given tag, subject, optional body and
/// urgency flag.
pub fn make_commit_message(
    commit_type: CommitType,
    message: String,
    body: Option<String>,
    urgent: bool,
) -> (r: String)
    ensures
        r@ == compose_spec(commit_type, urgent, message@, body_view(body)),
{
    let mut r = String::from_str(commit_type.key());
    if urgent {
        r.append("!");
    }
    r.append(": ");
    r.append(message.as_str());
    match body {
        Option::None => {
            proof {
                assert(r@ =~= compose_spec(commit_type, urgent, message@, Option::None));
            }
            r
        },
        Option::Some(b) => {
            r.append("\n\n");
            r.append(b.as_str());
            proof {
                assert(r@ =~= compose_spec(commit_type, urgent, message@, Option::Some(b@)));
            }
            r
        },
    }
}

/// A validated commit request: a tag, the urgency flag, the subject, and an
/// optional body.
pub struct CommitRequest {
    pub commit_type: CommitType,
    pub urgent: bool,
    pub message: String,
    pub body: Option<String>,
}

impl CommitRequest {
    /// The message this request composes to.
    pub open spec fn composed(self) -> Seq<char> {
        compose_spec(self.commit_type, self.urgent, self.message@, body_view(self.body))
    }

    /// Builds the commit message of this request.
    pub fn compose(&self) -> (r: String)
        ensures
            r@ == self.composed(),
    {
        let body: Option<String> = match &self.body {
            Option::None => Option::None,
            Option::Some(b) => Option::Some(b.clone()),
        };
        make_commit_message(self.commit_type, self.message.clone(), body, self.urgent)
    }
}

/// Composing is deterministic and pure: two requests whose fields hold the
/// same values compose to one and the same string, so composing the same
/// request twice yields byte-identical messages.
pub proof fn lemma_compose_deterministic(a: CommitRequest, b: CommitRequest)
    requires
        a.commit_type == b.commit_type,
        a.urgent == b.urgent,
        a.message@ == b.message@,
        body_view(a.body) == body_view(b.body),
    ensures
        a.composed() == b.composed(),
{
}

/// A present body, even an empty one, appends a blank line and the body to
/// the bodyless message; the result is therefore never the same string as
/// the one composed with no body at all.
pub proof fn lemma_body_two_paragraphs(
    commit_type: CommitType,
    urgent: bool,
    message: Seq<char>,
    body: Seq<char>,
)
    ensures
        compose_spec(commit_type, urgent, message, Option::Some(body)) == compose_spec(
            commit_type,
            urgent,
            message,
            Option::None,
        ) + "\n\n"@ + body,
        compose_spec(commit_type, urgent, message, Option::Some(body)) != compose_spec(
            commit_type,
            urgent,
            message,
            Option::None,
        ),
{
    reveal_strlit("\n\n");
    let bodyless = compose_spec(commit_type, urgent, message, Option::None);
    assert(compose_spec(commit_type, urgent, message, Option::Some(body)).len() == bodyless.len()
        + 2 + body.len());
}

} // verus!
