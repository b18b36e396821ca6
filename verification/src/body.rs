//! Which part of a decoded message is its plain-text body, and which its
//! HTML body.
//!
//! The decoder keeps two lists of parts, one that makes up the text body and
//! one that makes up the HTML body. Outside an alternative, an inline text
//! part of either kind stands in both lists, in message order, and the
//! decoder renders it to the list's kind when asked. A record keeps no
//! rendering: its body of a kind is the first part of that kind's list which
//! is of that kind itself.

use crate::mime::{
    html_body_at, html_body_of, html_part_at, html_part_of, is_html_part, part_is_html,
    text_body_at, text_body_of, text_part_at, text_part_of,
};
use vstd::prelude::*;

verus! {

/// The two kinds of body that a record keeps.
#[derive(Clone, Copy, Debug, PartialEq, Eq, Structural)]
pub enum BodyKind {
    /// Plain text.
    Text,
    /// HTML.
    Html,
}

/// The part at position `i` of the list that makes up the body of a kind,
/// absent where the list has no such position.
pub open spec fn listed_at(msg: &mail_parser::Message<'_>, kind: BodyKind, i: u32) -> Option<
    mail_parser::MessagePart<'static>,
> {
    match kind {
        BodyKind::Text => text_part_at(msg, i),
        BodyKind::Html => html_part_at(msg, i),
    }
}

/// What the decoder yields as the body of a kind at position `i`, rendered
/// from the other kind where the part there is of the other kind.
pub open spec fn yielded_at(msg: &mail_parser::Message<'_>, kind: BodyKind, i: u32) -> Option<
    Seq<char>,
> {
    match kind {
        BodyKind::Text => text_body_at(msg, i as usize),
        BodyKind::Html => html_body_at(msg, i as usize),
    }
}

/// Whether the part at position `i` of a kind's list is of that kind itself
/// and holds text.
pub open spec fn own_part_at(msg: &mail_parser::Message<'_>, kind: BodyKind, i: u32) -> bool {
    &&& listed_at(msg, kind, i) is Some
    &&& part_is_html(&listed_at(msg, kind, i)->0) == (kind == BodyKind::Html)
    &&& yielded_at(msg, kind, i) is Some
}

/// Whether position `i` of a kind's list holds a part that is passed over: a
/// part of the other kind, or one that holds no text.
pub open spec fn passed_over_at(msg: &mail_parser::Message<'_>, kind: BodyKind, i: u32) -> bool {
    listed_at(msg, kind, i) is Some && !own_part_at(msg, kind, i)
}

/// Whether position `i` is the least one of a kind's list whose part is of
/// that kind, every earlier position holding a part that is passed over.
pub open spec fn first_own_part_at(msg: &mail_parser::Message<'_>, kind: BodyKind, i: u32) -> bool {
    &&& own_part_at(msg, kind, i)
    &&& forall|j: u32| j < i ==> #[trigger] passed_over_at(msg, kind, j)
}

/// Whether the message has a body part of a kind.
pub open spec fn has_part_of(msg: &mail_parser::Message<'_>, kind: BodyKind) -> bool {
    exists|i: u32| first_own_part_at(msg, kind, i)
}

/// The body of a kind: what the decoder yields at the first position whose
/// part is of that kind, absent where the list ends before such a position.
pub open spec fn first_body(msg: &mail_parser::Message<'_>, kind: BodyKind) -> Option<Seq<char>> {
    if has_part_of(msg, kind) {
        yielded_at(msg, kind, choose|i: u32| first_own_part_at(msg, kind, i))
    } else {
        None
    }
}

/// Whether position `i` of the text body is the first that holds a
/// plain-text part.
pub open spec fn first_plain_at(msg: &mail_parser::Message<'_>, i: u32) -> bool {
    first_own_part_at(msg, BodyKind::Text, i)
}

/// Whether position `i` of the HTML body is the first that holds an HTML
/// part.
pub open spec fn first_html_at(msg: &mail_parser::Message<'_>, i: u32) -> bool {
    first_own_part_at(msg, BodyKind::Html, i)
}

/// Whether the message has a plain-text body part.
pub open spec fn has_plain_text_part(msg: &mail_parser::Message<'_>) -> bool {
    has_part_of(msg, BodyKind::Text)
}

/// Whether the message has an HTML body part.
pub open spec fn has_html_part(msg: &mail_parser::Message<'_>) -> bool {
    has_part_of(msg, BodyKind::Html)
}

/// The plain-text body of a message: its first plain-text part, not a
/// rendering of an HTML part that is listed before it.
pub open spec fn plain_text_body(msg: &mail_parser::Message<'_>) -> Option<Seq<char>> {
    first_body(msg, BodyKind::Text)
}

/// The HTML body of a message: its first HTML part, not a rendering of a
/// plain-text part that is listed before it.
pub open spec fn html_body(msg: &mail_parser::Message<'_>) -> Option<Seq<char>> {
    first_body(msg, BodyKind::Html)
}

/// At most one position is the first of its kind.
pub proof fn lemma_first_own_part_is_unique(
    msg: &mail_parser::Message<'_>,
    kind: BodyKind,
    a: u32,
    b: u32,
)
    requires
        first_own_part_at(msg, kind, a),
        first_own_part_at(msg, kind, b),
    ensures
        a == b,
{
    if a < b {
        assert(passed_over_at(msg, kind, a));
    }
    if b < a {
        assert(passed_over_at(msg, kind, b));
    }
}

/// The body of a kind is what the decoder yields at the first position whose
/// part is of that kind.
pub proof fn lemma_body_is_at_first_own_part(msg: &mail_parser::Message<'_>, kind: BodyKind, i: u32)
    requires
        first_own_part_at(msg, kind, i),
    ensures
        has_part_of(msg, kind),
        first_body(msg, kind) == yielded_at(msg, kind, i),
        first_body(msg, kind) is Some,
{
    let chosen = choose|k: u32| first_own_part_at(msg, kind, k);
    lemma_first_own_part_is_unique(msg, kind, chosen, i);
}

/// There is no body of a kind where the list ends, or the positions run out,
/// after nothing but parts that are passed over.
pub proof fn lemma_no_body_where_list_ends(msg: &mail_parser::Message<'_>, kind: BodyKind, end: u32)
    requires
        forall|j: u32| j < end ==> #[trigger] passed_over_at(msg, kind, j),
        listed_at(msg, kind, end) is None || (end == u32::MAX && !own_part_at(msg, kind, end)),
    ensures
        !has_part_of(msg, kind),
        first_body(msg, kind) is None,
{
    assert forall|k: u32| !first_own_part_at(msg, kind, k) by {
        if first_own_part_at(msg, kind, k) {
            if k < end {
                assert(passed_over_at(msg, kind, k));
            } else if k > end {
                assert(passed_over_at(msg, kind, end));
            }
        }
    }
}

/// The part at position `i` of a kind's list.
fn part_at<'a, 'x>(msg: &'a mail_parser::Message<'x>, kind: BodyKind, i: u32) -> (part: Option<
    &'a mail_parser::MessagePart<'x>,
>)
    ensures
        part is Some <==> listed_at(msg, kind, i) is Some,
        part is Some ==> *part->0 == listed_at(msg, kind, i)->0,
{
    match kind {
        BodyKind::Text => text_part_of(msg, i),
        BodyKind::Html => html_part_of(msg, i),
    }
}

/// What the decoder yields as the body of a kind at position `i`.
fn body_at(msg: &mail_parser::Message<'_>, kind: BodyKind, i: u32) -> (body: Option<String>)
    ensures
        body is Some <==> yielded_at(msg, kind, i) is Some,
        body is Some ==> body->0@ == yielded_at(msg, kind, i)->0,
{
    match kind {
        BodyKind::Text => text_body_of(msg, i as usize),
        BodyKind::Html => html_body_of(msg, i as usize),
    }
}

/// Whether a part is of the given kind.
fn is_of_kind(part: &mail_parser::MessagePart<'_>, kind: BodyKind) -> (own: bool)
    ensures
        own == (part_is_html(part) == (kind == BodyKind::Html)),
{
    match kind {
        BodyKind::Text => !is_html_part(part),
        BodyKind::Html => is_html_part(part),
    }
}

/// Finds the body of a kind: walks the kind's list from its start, passes
/// over every part of the other kind, and takes the first part of the kind
/// itself. Only such a part is asked for its text, so nothing is rendered.
pub fn first_body_of(msg: &mail_parser::Message<'_>, kind: BodyKind) -> (body: Option<String>)
    ensures
        body is Some <==> has_part_of(msg, kind),
        body is Some ==> Some(body->0@) == first_body(msg, kind),
        body is None ==> first_body(msg, kind) is None,
{
    let mut i: u32 = 0;
    loop
        invariant
            forall|j: u32| j < i ==> #[trigger] passed_over_at(msg, kind, j),
        decreases u32::MAX - i,
    {
        match part_at(msg, kind, i) {
            None => {
                proof {
                    lemma_no_body_where_list_ends(msg, kind, i);
                }
                return None;
            },
            Some(part) => {
                if is_of_kind(part, kind) {
                    let body = body_at(msg, kind, i);
                    if body.is_some() {
                        proof {
                            lemma_body_is_at_first_own_part(msg, kind, i);
                        }
                        return body;
                    }
                }
            },
        }
        if i == u32::MAX {
            proof {
                lemma_no_body_where_list_ends(msg, kind, i);
            }
            return None;
        }
        i = i + 1;
    }
}

} // verus!
