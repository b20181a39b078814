//! What the bot answers with: notices whose texts are either literal or
//! translated messages with their arguments.
use vstd::prelude::*;

verus! {

/// A text to send: literal, or a translated message named by its arguments.
#[derive(Debug, PartialEq, Eq)]
pub enum Text {
    /// Sent as it stands.
    Literal(String),
    /// The plain-text answer to `about` ("cmd.about.plain_response").
    AboutPlain { description: String, source: String, version: String },
    /// The HTML answer to `about` ("cmd.about.html_response").
    AboutHtml { description: String, source: String, version: String },
    /// Plain-text help for one command ("cmd.help.specific_plain").
    HelpPlain { cmd: String, help: String },
    /// HTML help for one command ("cmd.help.specific_html").
    HelpHtml { cmd: String, help: String },
    /// The command is not known ("err.cmd.unknown_cmd").
    UnknownCommand { cmd: String },
}

/// The mathematical value of a `Text`.
pub enum TextView {
    Literal(Seq<char>),
    AboutPlain { description: Seq<char>, source: Seq<char>, version: Seq<char> },
    AboutHtml { description: Seq<char>, source: Seq<char>, version: Seq<char> },
    HelpPlain { cmd: Seq<char>, help: Seq<char> },
    HelpHtml { cmd: Seq<char>, help: Seq<char> },
    UnknownCommand { cmd: Seq<char> },
}

impl View for Text {
    type V = TextView;

    open spec fn view(&self) -> TextView {
        match self {
            Text::Literal(s) => TextView::Literal(s@),
            Text::AboutPlain { description, source, version } => TextView::AboutPlain {
                description: description@,
                source: source@,
                version: version@,
            },
            Text::AboutHtml { description, source, version } => TextView::AboutHtml {
                description: description@,
                source: source@,
                version: version@,
            },
            Text::HelpPlain { cmd, help } => TextView::HelpPlain { cmd: cmd@, help: help@ },
            Text::HelpHtml { cmd, help } => TextView::HelpHtml { cmd: cmd@, help: help@ },
            Text::UnknownCommand { cmd } => TextView::UnknownCommand { cmd: cmd@ },
        }
    }
}

/// A message event to send back to the room.
#[derive(Debug, PartialEq, Eq)]
pub enum Reply {
    /// A notice with a plain-text body only.
    NoticePlain(Text),
    /// A notice with a plain-text body and an HTML body.
    NoticeHtml { plain: Text, html: Text },
}

/// The mathematical value of a `Reply`.
pub enum ReplyView {
    NoticePlain(TextView),
    NoticeHtml { plain: TextView, html: TextView },
}

impl View for Reply {
    type V = ReplyView;

    open spec fn view(&self) -> ReplyView {
        match self {
            Reply::NoticePlain(t) => ReplyView::NoticePlain(t@),
            Reply::NoticeHtml { plain, html } => ReplyView::NoticeHtml { plain: plain@, html: html@ },
        }
    }
}

} // verus!
