//! Show information about the project.
use vstd::prelude::*;
use crate::cmds::Command;
use crate::context::{Ctx, info_complete, info_lookup, lookup_info};
use crate::reply::{Reply, ReplyView, Text, TextView};

verus! {

pub struct About {}

impl About {
    pub fn new() -> (a: Self) {
        About {  }
    }
}

impl Command for About {
    open spec fn ready(&self, info: Seq<(Seq<char>, Seq<char>)>) -> bool {
        info_complete(info)
    }

    open spec fn help_text(&self, short: bool) -> (Seq<char>, Seq<char>) {
        (Seq::empty(), Seq::empty())
    }

    open spec fn answer(&self, info: Seq<(Seq<char>, Seq<char>)>) -> ReplyView {
        let description = info_lookup(info, "DESCRIPTION"@).unwrap();
        let source = info_lookup(info, "REPOSITORY"@).unwrap();
        let version = info_lookup(info, "VERSION"@).unwrap();
        ReplyView::NoticeHtml {
            plain: TextView::AboutPlain { description, source, version },
            html: TextView::AboutHtml { description, source, version },
        }
    }

    fn help(&self, short: bool) -> (h: [String; 2]) {
        if short {
            [String::new(), String::new()]
        } else {
            [String::new(), String::new()]
        }
    }

    fn handle(&self, ctx: &Ctx) -> (r: Reply) {
        let description = lookup_info(&ctx.info, "DESCRIPTION").unwrap();
        let source = lookup_info(&ctx.info, "REPOSITORY").unwrap();
        let version = lookup_info(&ctx.info, "VERSION").unwrap();
        let plain = Text::AboutPlain {
            description: description.clone(),
            source: source.clone(),
            version: version.clone(),
        };
        let html = Text::AboutHtml { description, source, version };
        Reply::NoticeHtml { plain, html }
    }
}

} // verus!
