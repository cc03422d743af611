//! Outgoing content as plain values: what is to be sent, before it is
//! handed to the protocol client.

use vstd::prelude::*;

verus! {

/// Whether a message is ordinary text or a notice.
#[derive(Clone, Copy, Debug, PartialEq, Eq, Structural)]
pub enum MessageKind {
    Text,
    Notice,
}

/// How the text of a message is to be read.
#[derive(Clone, Copy, Debug, PartialEq, Eq, Structural)]
pub enum Format {
    /// The body is plain text.
    Plain,
    /// The body is Markdown, to be rendered by the sender.
    Markdown,
    /// The body is plain text and comes with an HTML form.
    Html,
}

/// Whom a message mentions.
#[derive(Clone, Copy, Debug, PartialEq, Eq, Structural)]
pub enum Mention {
    Nobody,
    /// The sender of the command.
    Sender,
    /// Everyone in the room.
    Room,
}

/// The text of an optional string.
pub open spec fn opt_text(o: Option<String>) -> Option<Seq<char>> {
    match o {
        Some(s) => Some(s@),
        None => None,
    }
}

/// A message to send.
pub struct Message {
    pub kind: MessageKind,
    pub format: Format,
    pub body: String,
    /// The HTML form; present exactly when `format` is `Html`.
    pub html: Option<String>,
    pub mention: Mention,
    /// The event that the message replies to, if any.
    pub reply_to: Option<String>,
}

/// A message as text.
pub struct MessageView {
    pub kind: MessageKind,
    pub format: Format,
    pub body: Seq<char>,
    pub html: Option<Seq<char>>,
    pub mention: Mention,
    pub reply_to: Option<Seq<char>>,
}

impl View for Message {
    type V = MessageView;

    open spec fn view(&self) -> MessageView {
        MessageView {
            kind: self.kind,
            format: self.format,
            body: self.body@,
            html: opt_text(self.html),
            mention: self.mention,
            reply_to: opt_text(self.reply_to),
        }
    }
}

/// A message of plain text without mention or reply.
pub open spec fn plain(kind: MessageKind, body: Seq<char>) -> MessageView {
    MessageView {
        kind,
        format: Format::Plain,
        body,
        html: None,
        mention: Mention::Nobody,
        reply_to: None,
    }
}

/// A Markdown notice without mention or reply.
pub open spec fn markdown_notice(body: Seq<char>) -> MessageView {
    MessageView {
        kind: MessageKind::Notice,
        format: Format::Markdown,
        body,
        html: None,
        mention: Mention::Nobody,
        reply_to: None,
    }
}

/// A message with an HTML form.
pub open spec fn rich(
    kind: MessageKind,
    body: Seq<char>,
    html: Seq<char>,
    mention: Mention,
    reply_to: Option<Seq<char>>,
) -> MessageView {
    MessageView { kind, format: Format::Html, body, html: Some(html), mention, reply_to }
}

impl Message {
    /// A text message of plain text.
    pub fn text_plain(body: String) -> (m: Message)
        ensures
            m@ == plain(MessageKind::Text, body@),
    {
        Message {
            kind: MessageKind::Text,
            format: Format::Plain,
            body,
            html: None,
            mention: Mention::Nobody,
            reply_to: None,
        }
    }

    /// A notice of plain text.
    pub fn notice_plain(body: String) -> (m: Message)
        ensures
            m@ == plain(MessageKind::Notice, body@),
    {
        Message {
            kind: MessageKind::Notice,
            format: Format::Plain,
            body,
            html: None,
            mention: Mention::Nobody,
            reply_to: None,
        }
    }

    /// A notice whose body is Markdown.
    pub fn notice_markdown(body: String) -> (m: Message)
        ensures
            m@ == markdown_notice(body@),
    {
        Message {
            kind: MessageKind::Notice,
            format: Format::Markdown,
            body,
            html: None,
            mention: Mention::Nobody,
            reply_to: None,
        }
    }

    /// A message with an HTML form beside its plain body.
    pub fn html(
        kind: MessageKind,
        body: String,
        html: String,
        mention: Mention,
        reply_to: Option<String>,
    ) -> (m: Message)
        ensures
            m@ == rich(kind, body@, html@, mention, opt_text(reply_to)),
    {
        Message { kind, format: Format::Html, body, html: Some(html), mention, reply_to }
    }
}

/// A sticker to send: its caption and the address of its image.
pub struct Sticker {
    pub body: String,
    pub url: String,
}

/// A sticker as text.
pub struct StickerView {
    pub body: Seq<char>,
    pub url: Seq<char>,
}

impl View for Sticker {
    type V = StickerView;

    open spec fn view(&self) -> StickerView {
        StickerView { body: self.body@, url: self.url@ }
    }
}

} // verus!
