//! The email record: one message in the flat form that a user interface
//! shows, how it is built from a decoded message, and its derived views.

use crate::body::{
    first_body_of, first_html_at, first_own_part_at, first_plain_at, has_html_part,
    has_plain_text_part, html_body, lemma_body_is_at_first_own_part, plain_text_body, BodyKind,
};
use crate::mime::{
    address_of, date_header, date_of, first_of, from_header, from_of, html_body_at, is_empty,
    mailboxes, message_id_of, message_id_text, message_is_empty, subject_of, subject_text,
    text_body_at, timestamp_of, timestamp_text, to_header, to_of,
};
use vstd::prelude::*;

verus! {

/// Number of characters of the body that a preview shows before it is cut.
pub const PREVIEW_LENGTH: usize = 50;

/// The text of an optional string.
pub open spec fn text_of(s: Option<String>) -> Option<Seq<char>> {
    match s {
        Some(s) => Some(s@),
        None => None,
    }
}

/// What the normalizer reads from a decoded message: each value as the
/// decoder's accessors gave it, any of them possibly absent.
#[derive(Debug, PartialEq)]
pub struct MessageFields {
    pub subject: Option<String>,
    /// Address of the first mailbox of the `From` header.
    pub sender: Option<String>,
    /// Address of the first mailbox of the `To` header.
    pub recipient: Option<String>,
    pub body_text: Option<String>,
    pub body_html: Option<String>,
    /// The `Date` header, rendered as text.
    pub date: Option<String>,
    pub message_id: Option<String>,
}

/// Mathematical model of [`MessageFields`].
pub struct MessageFieldsView {
    pub subject: Option<Seq<char>>,
    pub sender: Option<Seq<char>>,
    pub recipient: Option<Seq<char>>,
    pub body_text: Option<Seq<char>>,
    pub body_html: Option<Seq<char>>,
    pub date: Option<Seq<char>>,
    pub message_id: Option<Seq<char>>,
}

impl View for MessageFields {
    type V = MessageFieldsView;

    open spec fn view(&self) -> MessageFieldsView {
        MessageFieldsView {
            subject: text_of(self.subject),
            sender: text_of(self.sender),
            recipient: text_of(self.recipient),
            body_text: text_of(self.body_text),
            body_html: text_of(self.body_html),
            date: text_of(self.date),
            message_id: text_of(self.message_id),
        }
    }
}

/// Address of the first mailbox of an address header: absent when the header
/// is missing, when it lists no mailbox, or when that mailbox has no address.
pub open spec fn first_address(header: Option<mail_parser::Address<'static>>) -> Option<Seq<char>> {
    match header {
        Some(list) => if mailboxes(&list).len() > 0 {
            mailboxes(&list)[0]
        } else {
            None
        },
        None => None,
    }
}

/// The timestamp of a decoded `Date` header as text, absent with the header.
pub open spec fn date_text(header: Option<mail_parser::DateTime>) -> Option<Seq<char>> {
    match header {
        Some(date) => Some(timestamp_text(&date)),
        None => None,
    }
}

/// The fields of a decoded message, each by the extraction policy of the
/// record: first mailbox only, first body part of each kind only, wherever
/// it stands among the parts, and never a rendering of the other kind.
pub open spec fn fields_of(msg: &mail_parser::Message<'_>) -> MessageFieldsView {
    MessageFieldsView {
        subject: subject_text(msg),
        sender: first_address(from_header(msg)),
        recipient: first_address(to_header(msg)),
        body_text: plain_text_body(msg),
        body_html: html_body(msg),
        date: date_text(date_header(msg)),
        message_id: message_id_text(msg),
    }
}

/// Address of the first mailbox of an address header that was found or not.
fn first_address_of(header: Option<&mail_parser::Address<'_>>) -> (address: Option<String>)
    ensures
        text_of(address) == first_address(
            match header {
                Some(list) => Some(*list),
                None => None,
            },
        ),
{
    match header {
        Some(list) => match first_of(list) {
            Some(entry) => address_of(entry),
            None => None,
        },
        None => None,
    }
}

impl MessageFields {
    /// Reads from a decoded message every field that a record keeps.
    ///
    /// The message must have a root part, as every message that the decoder
    /// returns has: the header accessors index it.
    pub fn extract(msg: &mail_parser::Message<'_>) -> (fields: MessageFields)
        requires
            !message_is_empty(msg),
        ensures
            fields@ == fields_of(msg),
    {
        let subject = subject_of(msg);
        let sender = first_address_of(from_of(msg));
        let recipient = first_address_of(to_of(msg));
        let body_text = first_body_of(msg, BodyKind::Text);
        let body_html = first_body_of(msg, BodyKind::Html);
        let date = match date_of(msg) {
            Some(date) => Some(timestamp_of(date)),
            None => None,
        };
        let message_id = message_id_of(msg);
        MessageFields { subject, sender, recipient, body_text, body_html, date, message_id }
    }
}

/// One email message in the form that a user interface consumes.
///
/// Every field that comes from the message may be absent; a record with no
/// subject, no sender and no body is a legal value. The flags, the folder and
/// the account come from the caller.
#[derive(PartialEq, Debug)]
pub struct ParsedEmail {
    pub account_id: Option<String>,
    pub message_id: Option<String>,
    pub subject: Option<String>,
    pub sender: Option<String>,
    pub recipients: Option<String>,
    pub body_text: Option<String>,
    pub body_html: Option<String>,
    pub received_date: Option<String>,
    pub is_read: bool,
    pub is_starred: bool,
    pub folder: Option<String>,
}

/// Mathematical model of [`ParsedEmail`].
pub struct ParsedEmailView {
    pub account_id: Option<Seq<char>>,
    pub message_id: Option<Seq<char>>,
    pub subject: Option<Seq<char>>,
    pub sender: Option<Seq<char>>,
    pub recipients: Option<Seq<char>>,
    pub body_text: Option<Seq<char>>,
    pub body_html: Option<Seq<char>>,
    pub received_date: Option<Seq<char>>,
    pub is_read: bool,
    pub is_starred: bool,
    pub folder: Option<Seq<char>>,
}

impl View for ParsedEmail {
    type V = ParsedEmailView;

    open spec fn view(&self) -> ParsedEmailView {
        ParsedEmailView {
            account_id: text_of(self.account_id),
            message_id: text_of(self.message_id),
            subject: text_of(self.subject),
            sender: text_of(self.sender),
            recipients: text_of(self.recipients),
            body_text: text_of(self.body_text),
            body_html: text_of(self.body_html),
            received_date: text_of(self.received_date),
            is_read: self.is_read,
            is_starred: self.is_starred,
            folder: text_of(self.folder),
        }
    }
}

/// The record for a message with the given fields in the given mailbox
/// context: the fields are taken over as they are, the folder is always set.
pub open spec fn record(
    fields: MessageFieldsView,
    seen: bool,
    folder: Seq<char>,
    is_starred: bool,
    account_id: Option<Seq<char>>,
) -> ParsedEmailView {
    ParsedEmailView {
        account_id,
        message_id: fields.message_id,
        subject: fields.subject,
        sender: fields.sender,
        recipients: fields.recipient,
        body_text: fields.body_text,
        body_html: fields.body_html,
        received_date: fields.date,
        is_read: seen,
        is_starred,
        folder: Some(folder),
    }
}

/// The body preview: the whole body up to [`PREVIEW_LENGTH`] characters, the
/// first [`PREVIEW_LENGTH`] characters and an ellipsis beyond that, a
/// placeholder without a body. Lengths count characters, not bytes.
pub open spec fn preview_of(body: Option<Seq<char>>) -> Seq<char> {
    match body {
        Some(text) => if text.len() > PREVIEW_LENGTH {
            text.subrange(0, PREVIEW_LENGTH as int) + "..."@
        } else {
            text
        },
        None => "(No body text)"@,
    }
}

/// The timestamp shown for a record: the stored text, or a placeholder.
pub open spec fn time_string_of(received_date: Option<Seq<char>>) -> Seq<char> {
    match received_date {
        Some(text) => text,
        None => "(No timestamp)"@,
    }
}

/// A copy of an optional string.
fn copy_of(s: &Option<String>) -> (copy: Option<String>)
    ensures
        copy == *s,
{
    match s {
        Some(text) => Some(text.clone()),
        None => None,
    }
}

impl ParsedEmail {
    /// Builds the record for a message whose fields were already extracted.
    pub fn from_fields(
        fields: MessageFields,
        seen: bool,
        folder: String,
        is_starred: bool,
        account_id: Option<String>,
    ) -> (email: ParsedEmail)
        ensures
            email@ == record(fields@, seen, folder@, is_starred, text_of(account_id)),
    {
        ParsedEmail {
            account_id,
            message_id: fields.message_id,
            subject: fields.subject,
            sender: fields.sender,
            recipients: fields.recipient,
            body_text: fields.body_text,
            body_html: fields.body_html,
            received_date: fields.date,
            is_read: seen,
            is_starred,
            folder: Some(folder),
        }
    }

    /// Builds the record for a decoded message in the given mailbox context.
    ///
    /// Never fails: what the message lacks is absent in the record. Of each
    /// address header only the first mailbox is kept, however many follow.
    /// Each body is the first part of its kind, wherever it stands among the
    /// parts, and never a rendering of a part of the other kind.
    /// The message must have a root part, as every message that the decoder
    /// returns has; [`ParsedEmail::try_from_message`] tests for it.
    pub fn from_message(
        msg: mail_parser::Message,
        seen: bool,
        folder: String,
        is_starred: bool,
        account_id: Option<String>,
    ) -> (email: ParsedEmail)
        requires
            !message_is_empty(&msg),
        ensures
            email@ == record(fields_of(&msg), seen, folder@, is_starred, text_of(account_id)),
            email@.subject == subject_text(&msg),
            from_header(&msg) is None ==> email.sender is None,
            from_header(&msg) is Some && mailboxes(&from_header(&msg)->0).len() == 0
                ==> email.sender is None,
            to_header(&msg) is Some && mailboxes(&to_header(&msg)->0).len() > 0
                ==> email@.recipients == mailboxes(&to_header(&msg)->0)[0],
            has_plain_text_part(&msg) && has_html_part(&msg) ==> email.body_text is Some
                && email.body_html is Some,
            forall|i: u32| #[trigger]
                first_plain_at(&msg, i) ==> email@.body_text == text_body_at(&msg, i as usize),
            forall|i: u32| #[trigger]
                first_html_at(&msg, i) ==> email@.body_html == html_body_at(&msg, i as usize),
            !has_plain_text_part(&msg) ==> email.body_text is None,
            !has_html_part(&msg) ==> email.body_html is None,
    {
        let fields = MessageFields::extract(&msg);
        proof {
            lemma_bodies_are_the_first_of_their_kind(&msg);
        }
        ParsedEmail::from_fields(fields, seen, folder, is_starred, account_id)
    }

    /// As [`ParsedEmail::from_message`], for any message value: `None` for
    /// one without a root part, which no accessor can read.
    pub fn try_from_message(
        msg: mail_parser::Message,
        seen: bool,
        folder: String,
        is_starred: bool,
        account_id: Option<String>,
    ) -> (email: Option<ParsedEmail>)
        ensures
            email is None <==> message_is_empty(&msg),
            email is Some ==> email->0@ == record(
                fields_of(&msg),
                seen,
                folder@,
                is_starred,
                text_of(account_id),
            ),
    {
        if is_empty(&msg) {
            None
        } else {
            Some(ParsedEmail::from_message(msg, seen, folder, is_starred, account_id))
        }
    }

    /// A copy of the plain-text body. The length limit is reserved and has no
    /// effect: the body is never cut here.
    pub fn body_text(&self, _max_length: usize) -> (body: Option<String>)
        ensures
            body == self.body_text,
    {
        copy_of(&self.body_text)
    }

    /// A short preview of the plain-text body, cut on a character boundary.
    pub fn preview(&self) -> (text: String)
        ensures
            text@ == preview_of(self@.body_text),
    {
        match &self.body_text {
            Some(body) => {
                let whole = body.as_str();
                if whole.unicode_len() > PREVIEW_LENGTH {
                    let mut text = String::from_str(whole.substring_char(0, PREVIEW_LENGTH));
                    text.append("...");
                    text
                } else {
                    body.clone()
                }
            },
            None => String::from_str("(No body text)"),
        }
    }

    /// The timestamp as stored, or a placeholder where there is none.
    pub fn time_string(&self) -> (text: String)
        ensures
            text@ == time_string_of(self@.received_date),
    {
        match &self.received_date {
            Some(timestamp) => timestamp.clone(),
            None => String::from_str("(No timestamp)"),
        }
    }
}

/// Building a record is a function of the message and the context: two
/// records built from the same message with the same context agree in every
/// field.
pub proof fn lemma_construction_is_deterministic(
    first: ParsedEmail,
    second: ParsedEmail,
    msg: &mail_parser::Message<'_>,
    seen: bool,
    folder: Seq<char>,
    is_starred: bool,
    account_id: Option<Seq<char>>,
)
    requires
        first@ == record(fields_of(msg), seen, folder, is_starred, account_id),
        second@ == record(fields_of(msg), seen, folder, is_starred, account_id),
    ensures
        first@ == second@,
        first.is_read == second.is_read,
        first.is_starred == second.is_starred,
{
}

/// Only the first mailbox of the `To` header reaches a record: two messages
/// whose `To` headers list several mailboxes and begin with the same one give
/// the same recipient, whatever mailboxes follow it.
pub proof fn lemma_recipients_keep_first_entry_only(
    one: &mail_parser::Message<'_>,
    other: &mail_parser::Message<'_>,
    seen: bool,
    folder: Seq<char>,
    is_starred: bool,
    account_id: Option<Seq<char>>,
)
    requires
        to_header(one) is Some,
        to_header(other) is Some,
        mailboxes(&to_header(one)->0).len() >= 2,
        mailboxes(&to_header(other)->0).len() >= 2,
        mailboxes(&to_header(one)->0)[0] == mailboxes(&to_header(other)->0)[0],
    ensures
        record(fields_of(one), seen, folder, is_starred, account_id).recipients == mailboxes(
            &to_header(one)->0,
        )[0],
        record(fields_of(one), seen, folder, is_starred, account_id).recipients == record(
            fields_of(other),
            seen,
            folder,
            is_starred,
            account_id,
        ).recipients,
{
}

/// Each body of a record is what the decoder yields at the first position
/// of that kind's list whose part is of the kind itself, and there is a body
/// of a kind exactly where there is such a position.
pub proof fn lemma_bodies_are_the_first_of_their_kind(msg: &mail_parser::Message<'_>)
    ensures
        forall|i: u32| #[trigger]
            first_plain_at(msg, i) ==> fields_of(msg).body_text == text_body_at(msg, i as usize),
        forall|i: u32| #[trigger]
            first_html_at(msg, i) ==> fields_of(msg).body_html == html_body_at(msg, i as usize),
        fields_of(msg).body_text is Some <==> has_plain_text_part(msg),
        fields_of(msg).body_html is Some <==> has_html_part(msg),
{
    assert forall|i: u32| #[trigger] first_plain_at(msg, i) implies fields_of(msg).body_text
        == text_body_at(msg, i as usize) by {
        lemma_body_is_at_first_own_part(msg, BodyKind::Text, i);
    }
    assert forall|i: u32| #[trigger] first_html_at(msg, i) implies fields_of(msg).body_html
        == html_body_at(msg, i as usize) by {
        lemma_body_is_at_first_own_part(msg, BodyKind::Html, i);
    }
    if has_plain_text_part(msg) {
        let i = choose|i: u32| first_own_part_at(msg, BodyKind::Text, i);
        lemma_body_is_at_first_own_part(msg, BodyKind::Text, i);
    }
    if has_html_part(msg) {
        let i = choose|i: u32| first_own_part_at(msg, BodyKind::Html, i);
        lemma_body_is_at_first_own_part(msg, BodyKind::Html, i);
    }
}

/// A message with both a plain-text and an HTML body part gives a record
/// with both, wherever the two parts stand among the others: each body is
/// the first part of its kind as the decoder yields it, and so non-empty
/// where that part is.
pub proof fn lemma_both_bodies_are_kept(
    msg: &mail_parser::Message<'_>,
    plain: u32,
    html: u32,
    seen: bool,
    folder: Seq<char>,
    is_starred: bool,
    account_id: Option<Seq<char>>,
)
    requires
        first_plain_at(msg, plain),
        first_html_at(msg, html),
    ensures
        ({
            let email = record(fields_of(msg), seen, folder, is_starred, account_id);
            &&& email.body_text is Some
            &&& email.body_html is Some
            &&& email.body_text == text_body_at(msg, plain as usize)
            &&& email.body_html == html_body_at(msg, html as usize)
            &&& text_body_at(msg, plain as usize)->0.len() > 0 ==> email.body_text->0.len() > 0
            &&& html_body_at(msg, html as usize)->0.len() > 0 ==> email.body_html->0.len() > 0
        }),
{
    lemma_body_is_at_first_own_part(msg, BodyKind::Text, plain);
    lemma_body_is_at_first_own_part(msg, BodyKind::Html, html);
}

/// The two bodies are independent, and neither is made from the other: a
/// message without an HTML part gives a record without an HTML body, whatever
/// its text is, and a message without a plain-text part gives a record
/// without a plain-text body.
pub proof fn lemma_no_body_without_its_part(
    msg: &mail_parser::Message<'_>,
    seen: bool,
    folder: Seq<char>,
    is_starred: bool,
    account_id: Option<Seq<char>>,
)
    ensures
        ({
            let email = record(fields_of(msg), seen, folder, is_starred, account_id);
            &&& !has_html_part(msg) ==> email.body_html is None
            &&& !has_plain_text_part(msg) ==> email.body_text is None
        }),
{
}

/// A preview never holds more than the cut body and the ellipsis.
pub proof fn lemma_preview_is_short(body: Seq<char>)
    ensures
        preview_of(Some(body)).len() <= PREVIEW_LENGTH + 3,
        body.len() <= PREVIEW_LENGTH ==> preview_of(Some(body)) == body,
        body.len() > PREVIEW_LENGTH ==> preview_of(Some(body)).len() == PREVIEW_LENGTH + 3,
{
    reveal_strlit("...");
}

} // verus!
