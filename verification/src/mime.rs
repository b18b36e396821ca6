//! The boundary to the MIME decoder.
//!
//! Decoding is done by the `mail_parser` crate. Its types are opaque here;
//! what its accessors return is given a name, and every contract in this
//! crate that depends on the decoder is stated over those names. Nothing in
//! this file is proved: each item says what is trusted of the decoder.

use vstd::prelude::*;

verus! {

/// A decoded message, as `mail_parser` produces it.
#[verifier::external_type_specification]
#[verifier::external_body]
pub struct ExMessage<'x>(mail_parser::Message<'x>);

/// The decoder itself, with its header-parsing configuration.
#[verifier::external_type_specification]
#[verifier::external_body]
pub struct ExMessageParser(mail_parser::MessageParser);

/// An address header: a list of mailboxes, or a list of groups of them.
#[verifier::external_type_specification]
#[verifier::external_body]
pub struct ExAddress<'x>(mail_parser::Address<'x>);

/// One mailbox of an address header.
#[verifier::external_type_specification]
#[verifier::external_body]
pub struct ExAddr<'x>(mail_parser::Addr<'x>);

/// One part of a decoded message, with its decoded content.
#[verifier::external_type_specification]
#[verifier::external_body]
pub struct ExMessagePart<'x>(mail_parser::MessagePart<'x>);

/// A decoded `Date` header.
#[verifier::external_type_specification]
#[verifier::external_body]
pub struct ExDateTime(mail_parser::DateTime);

/// Whether a parser carries the default configuration, the one that
/// `MessageParser::default` builds.
pub uninterp spec fn is_default_parser(parser: &mail_parser::MessageParser) -> bool;

/// What a default-configured `MessageParser::parse` returns on `raw`.
pub uninterp spec fn parsed(raw: Seq<u8>) -> Option<mail_parser::Message<'static>>;

/// What `Message::is_empty` returns: that the message has no part at all.
pub uninterp spec fn message_is_empty(msg: &mail_parser::Message<'_>) -> bool;

/// What `Message::subject` returns.
pub uninterp spec fn subject_text(msg: &mail_parser::Message<'_>) -> Option<Seq<char>>;

/// What `Message::message_id` returns.
pub uninterp spec fn message_id_text(msg: &mail_parser::Message<'_>) -> Option<Seq<char>>;

/// What `Message::from` returns: the `From` header, where it is an address
/// header.
pub uninterp spec fn from_header(msg: &mail_parser::Message<'_>) -> Option<
    mail_parser::Address<'static>,
>;

/// What `Message::to` returns: the `To` header, where it is an address header.
pub uninterp spec fn to_header(msg: &mail_parser::Message<'_>) -> Option<
    mail_parser::Address<'static>,
>;

/// The mailboxes that an address header lists, in order, those of groups
/// one after the other; each mailbox stands by what `Addr::address` returns
/// for it.
pub uninterp spec fn mailboxes(list: &mail_parser::Address<'_>) -> Seq<Option<Seq<char>>>;

/// What `Addr::address` returns: the address part of a mailbox, not its
/// display name.
pub uninterp spec fn entry_address(entry: &mail_parser::Addr<'_>) -> Option<Seq<char>>;

/// What `Message::text_part` returns: the part that stands at position `pos`
/// of the message's text body.
pub uninterp spec fn text_part_at(msg: &mail_parser::Message<'_>, pos: u32) -> Option<
    mail_parser::MessagePart<'static>,
>;

/// What `Message::html_part` returns: the part that stands at position `pos`
/// of the message's HTML body.
pub uninterp spec fn html_part_at(msg: &mail_parser::Message<'_>, pos: u32) -> Option<
    mail_parser::MessagePart<'static>,
>;

/// What `MessagePart::is_text_html` returns: that the part's own content is
/// HTML.
pub uninterp spec fn part_is_html(part: &mail_parser::MessagePart<'_>) -> bool;

/// What `Message::body_text` returns for the text body at position `pos`.
pub uninterp spec fn text_body_at(msg: &mail_parser::Message<'_>, pos: usize) -> Option<Seq<char>>;

/// What `Message::body_html` returns for the HTML body at position `pos`.
pub uninterp spec fn html_body_at(msg: &mail_parser::Message<'_>, pos: usize) -> Option<Seq<char>>;

/// What `Message::date` returns: the `Date` header, where it decoded to a
/// timestamp.
pub uninterp spec fn date_header(msg: &mail_parser::Message<'_>) -> Option<mail_parser::DateTime>;

/// The text that `DateTime`'s `Display` writes, an RFC 3339 timestamp.
pub uninterp spec fn timestamp_text(date: &mail_parser::DateTime) -> Seq<char>;

/// `MessageParser::default`: a parser with the default configuration.
#[verifier::external_body]
pub(crate) fn default_parser() -> (parser: mail_parser::MessageParser)
    ensures
        is_default_parser(&parser),
{
    mail_parser::MessageParser::default()
}

/// `MessageParser::parse`. With the default configuration the outcome depends
/// on the bytes alone. The crate's source returns a message only when at
/// least one part was recorded, so a returned message is never empty.
#[verifier::external_body]
pub(crate) fn parse_with<'x>(parser: &mail_parser::MessageParser, raw: &'x [u8]) -> (msg: Option<
    mail_parser::Message<'x>,
>)
    requires
        is_default_parser(parser),
    ensures
        msg == parsed(raw@),
        msg is Some ==> !message_is_empty(&msg->0),
{
    parser.parse(raw)
}

/// `Message::is_empty`.
#[verifier::external_body]
pub(crate) fn is_empty(msg: &mail_parser::Message<'_>) -> (empty: bool)
    ensures
        empty == message_is_empty(msg),
{
    msg.is_empty()
}

/// `Message::subject`: the text value of the `Subject` header, copied.
/// The accessor indexes the root part, so the message must have one.
#[verifier::external_body]
pub(crate) fn subject_of(msg: &mail_parser::Message<'_>) -> (subject: Option<String>)
    requires
        !message_is_empty(msg),
    ensures
        subject is Some <==> subject_text(msg) is Some,
        subject is Some ==> subject->0@ == subject_text(msg)->0,
{
    msg.subject().map(|s| s.to_string())
}

/// `Message::message_id`: the text value of the `Message-ID` header, copied.
/// The accessor indexes the root part, so the message must have one.
#[verifier::external_body]
pub(crate) fn message_id_of(msg: &mail_parser::Message<'_>) -> (id: Option<String>)
    requires
        !message_is_empty(msg),
    ensures
        id is Some <==> message_id_text(msg) is Some,
        id is Some ==> id->0@ == message_id_text(msg)->0,
{
    msg.message_id().map(|s| s.to_string())
}

/// `Message::from`. The accessor indexes the root part, so the message must
/// have one.
#[verifier::external_body]
pub(crate) fn from_of<'a, 'x>(msg: &'a mail_parser::Message<'x>) -> (list: Option<
    &'a mail_parser::Address<'x>,
>)
    requires
        !message_is_empty(msg),
    ensures
        list is Some <==> from_header(msg) is Some,
        list is Some ==> *list->0 == from_header(msg)->0,
{
    msg.from()
}

/// `Message::to`. The accessor indexes the root part, so the message must
/// have one.
#[verifier::external_body]
pub(crate) fn to_of<'a, 'x>(msg: &'a mail_parser::Message<'x>) -> (list: Option<
    &'a mail_parser::Address<'x>,
>)
    requires
        !message_is_empty(msg),
    ensures
        list is Some <==> to_header(msg) is Some,
        list is Some ==> *list->0 == to_header(msg)->0,
{
    msg.to()
}

/// `Address::first`: the first mailbox of the list, or of the first group
/// that has one; none exactly when the header lists no mailbox.
#[verifier::external_body]
pub(crate) fn first_of<'a, 'x>(list: &'a mail_parser::Address<'x>) -> (entry: Option<
    &'a mail_parser::Addr<'x>,
>)
    ensures
        entry is Some <==> mailboxes(list).len() > 0,
        entry is Some ==> entry_address(entry->0) == mailboxes(list)[0],
{
    list.first()
}

/// `Addr::address`, copied.
#[verifier::external_body]
pub(crate) fn address_of(entry: &mail_parser::Addr<'_>) -> (address: Option<String>)
    ensures
        address is Some <==> entry_address(entry) is Some,
        address is Some ==> address->0@ == entry_address(entry)->0,
{
    entry.address().map(|s| s.to_string())
}

/// `Message::text_part`.
#[verifier::external_body]
pub(crate) fn text_part_of<'a, 'x>(msg: &'a mail_parser::Message<'x>, pos: u32) -> (part: Option<
    &'a mail_parser::MessagePart<'x>,
>)
    ensures
        part is Some <==> text_part_at(msg, pos) is Some,
        part is Some ==> *part->0 == text_part_at(msg, pos)->0,
{
    msg.text_part(pos)
}

/// `Message::html_part`.
#[verifier::external_body]
pub(crate) fn html_part_of<'a, 'x>(msg: &'a mail_parser::Message<'x>, pos: u32) -> (part: Option<
    &'a mail_parser::MessagePart<'x>,
>)
    ensures
        part is Some <==> html_part_at(msg, pos) is Some,
        part is Some ==> *part->0 == html_part_at(msg, pos)->0,
{
    msg.html_part(pos)
}

/// `MessagePart::is_text_html`.
#[verifier::external_body]
pub(crate) fn is_html_part(part: &mail_parser::MessagePart<'_>) -> (html: bool)
    ensures
        html == part_is_html(part),
{
    part.is_text_html()
}

/// `Message::body_text`, copied: the text body at `pos`. Where the part at
/// that position is an HTML part, the decoder renders it to text.
#[verifier::external_body]
pub(crate) fn text_body_of(msg: &mail_parser::Message<'_>, pos: usize) -> (body: Option<String>)
    ensures
        body is Some <==> text_body_at(msg, pos) is Some,
        body is Some ==> body->0@ == text_body_at(msg, pos)->0,
{
    msg.body_text(pos).map(|b| b.into_owned())
}

/// `Message::body_html`, copied: the HTML body at `pos`. Where the part at
/// that position is a plain-text part, the decoder renders it to HTML.
#[verifier::external_body]
pub(crate) fn html_body_of(msg: &mail_parser::Message<'_>, pos: usize) -> (body: Option<String>)
    ensures
        body is Some <==> html_body_at(msg, pos) is Some,
        body is Some ==> body->0@ == html_body_at(msg, pos)->0,
{
    msg.body_html(pos).map(|b| b.into_owned())
}

/// `Message::date`. The accessor indexes the root part, so the message must
/// have one.
#[verifier::external_body]
pub(crate) fn date_of<'a>(msg: &'a mail_parser::Message<'_>) -> (date: Option<
    &'a mail_parser::DateTime,
>)
    requires
        !message_is_empty(msg),
    ensures
        date is Some <==> date_header(msg) is Some,
        date is Some ==> *date->0 == date_header(msg)->0,
{
    msg.date()
}

/// `DateTime`'s `Display`, through `to_string`.
#[verifier::external_body]
pub(crate) fn timestamp_of(date: &mail_parser::DateTime) -> (text: String)
    ensures
        text@ == timestamp_text(date),
{
    date.to_string()
}

} // verus!
