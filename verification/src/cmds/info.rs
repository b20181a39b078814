//! Show information about the bot.
use vstd::prelude::*;
use crate::cmds::Command;
use crate::context::{Ctx, info_complete, info_lookup, lookup_info};
use crate::reply::{Reply, ReplyView, Text, TextView};

verus! {

pub struct Info {}

impl Info {
    pub fn new() -> (i: Self) {
        Info {  }
    }
}

/// The plain-text description of the bot.
pub open spec fn info_plain(version: Seq<char>, description: Seq<char>, source: Seq<char>) -> Seq<char> {
    " | MxSelfBot v"@ + version + " | \n"@ + description + "\n\n Source code URL: "@ + source
}

/// The HTML description of the bot.
pub open spec fn info_html(version: Seq<char>, description: Seq<char>, source: Seq<char>) -> Seq<char> {
    " <h1>MxSelfBot v"@ + version + "</h1><i>"@ + description + "</i><br/><br/>Source code URL: "@
        + source
}

impl Command for Info {
    open spec fn ready(&self, info: Seq<(Seq<char>, Seq<char>)>) -> bool {
        info_complete(info)
    }

    open spec fn help_text(&self, short: bool) -> (Seq<char>, Seq<char>) {
        (Seq::empty(), Seq::empty())
    }

    open spec fn answer(&self, info: Seq<(Seq<char>, Seq<char>)>) -> ReplyView {
        let version = info_lookup(info, "VERSION"@).unwrap();
        let description = info_lookup(info, "DESCRIPTION"@).unwrap();
        let source = info_lookup(info, "REPOSITORY"@).unwrap();
        ReplyView::NoticeHtml {
            plain: TextView::Literal(info_plain(version, description, source)),
            html: TextView::Literal(info_html(version, description, source)),
        }
    }

    fn help(&self, short: bool) -> (h: [String; 2]) {
        if short {
            [String::new(), String::new()]
        } else {
            [String::new(), String::new()]
        }
    }

    fn handle(&self, ctx: &Ctx) -> (r: Reply) {
        let version = lookup_info(&ctx.info, "VERSION").unwrap();
        let description = lookup_info(&ctx.info, "DESCRIPTION").unwrap();
        let source = lookup_info(&ctx.info, "REPOSITORY").unwrap();
        let mut plain = String::from_str(" | MxSelfBot v");
        plain.append(version.as_str());
        plain.append(" | \n");
        plain.append(description.as_str());
        plain.append("\n\n Source code URL: ");
        plain.append(source.as_str());
        let mut html = String::from_str(" <h1>MxSelfBot v");
        html.append(version.as_str());
        html.append("</h1><i>");
        html.append(description.as_str());
        html.append("</i><br/><br/>Source code URL: ");
        html.append(source.as_str());
        Reply::NoticeHtml { plain: Text::Literal(plain), html: Text::Literal(html) }
    }
}

} // verus!
