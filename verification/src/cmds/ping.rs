//! Check whether the bot is online.
use vstd::prelude::*;
use crate::cmds::Command;
use crate::context::Ctx;
use crate::reply::{Reply, ReplyView, Text, TextView};

verus! {

pub struct Ping {}

impl Ping {
    pub fn new() -> (p: Self) {
        Ping {  }
    }
}

impl Command for Ping {
    open spec fn ready(&self, info: Seq<(Seq<char>, Seq<char>)>) -> bool {
        true
    }

    open spec fn help_text(&self, short: bool) -> (Seq<char>, Seq<char>) {
        (Seq::empty(), Seq::empty())
    }

    open spec fn answer(&self, info: Seq<(Seq<char>, Seq<char>)>) -> ReplyView {
        ReplyView::NoticePlain(TextView::Literal("Pong 🏓"@))
    }

    fn help(&self, short: bool) -> (h: [String; 2]) {
        if short {
            [String::new(), String::new()]
        } else {
            [String::new(), String::new()]
        }
    }

    fn handle(&self, ctx: &Ctx) -> (r: Reply) {
        Reply::NoticePlain(Text::Literal(String::from_str("Pong 🏓")))
    }
}

} // verus!
