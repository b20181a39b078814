//! The commands the bot knows, and the choice of an answer for a command line.
use vstd::prelude::*;
use crate::context::{Ctx, info_view, info_keys_unique, law_lookup_unique_key};
use crate::reply::{Reply, ReplyView, Text, TextView};
use crate::text::{views, same_text};
use crate::cmds::about::About;
use crate::cmds::ping::Ping;

pub mod about;
pub mod info;
pub mod ping;

verus! {

/// A command that the bot can execute.
pub trait Command {
    /// Whether the command can answer given these named values.
    spec fn ready(&self, info: Seq<(Seq<char>, Seq<char>)>) -> bool;

    /// The plain-text and HTML help of the command, short or long.
    spec fn help_text(&self, short: bool) -> (Seq<char>, Seq<char>);

    /// What the command answers, given these named values.
    spec fn answer(&self, info: Seq<(Seq<char>, Seq<char>)>) -> ReplyView;

    /// The plain-text and HTML help of the command.
    fn help(&self, short: bool) -> (h: [String; 2])
        ensures
            h@[0]@ == self.help_text(short).0,
            h@[1]@ == self.help_text(short).1,
    ;

    /// The answer to send back to the room the command came from.
    fn handle(&self, ctx: &Ctx) -> (r: Reply)
        requires
            self.ready(info_view(ctx.info@)),
        ensures
            r@ == self.answer(info_view(ctx.info@)),
    ;
}


/// The commands that can be run by name.
#[derive(Debug, Clone, Copy, PartialEq, Eq, Structural)]
pub enum CommandKind {
    About,
    Ping,
}

/// The command registered under `name`: "about" and "ping".
pub open spec fn command_named(name: Seq<char>) -> Option<CommandKind> {
    if name == "about"@ {
        Some(CommandKind::About)
    } else if name == "ping"@ {
        Some(CommandKind::Ping)
    } else {
        None
    }
}

/// Finds the command registered under `name`.
pub fn lookup_command(name: &str) -> (r: Option<CommandKind>)
    ensures
        r == command_named(name@),
{
    if same_text(name, "about") {
        Some(CommandKind::About)
    } else if same_text(name, "ping") {
        Some(CommandKind::Ping)
    } else {
        None
    }
}

/// Whether the registered command can answer given these named values.
pub open spec fn kind_ready(kind: CommandKind, info: Seq<(Seq<char>, Seq<char>)>) -> bool {
    match kind {
        CommandKind::About => About {  }.ready(info),
        CommandKind::Ping => Ping {  }.ready(info),
    }
}

/// The help of a registered command.
pub open spec fn kind_help(kind: CommandKind, short: bool) -> (Seq<char>, Seq<char>) {
    match kind {
        CommandKind::About => About {  }.help_text(short),
        CommandKind::Ping => Ping {  }.help_text(short),
    }
}

/// The answer of a registered command.
pub open spec fn kind_answer(kind: CommandKind, info: Seq<(Seq<char>, Seq<char>)>) -> ReplyView {
    match kind {
        CommandKind::About => About {  }.answer(info),
        CommandKind::Ping => Ping {  }.answer(info),
    }
}

/// A command line can be executed: it holds a word, and if that word
/// names a command, the command can answer.
pub open spec fn can_execute_spec(cmdline: Seq<Seq<char>>, info: Seq<(Seq<char>, Seq<char>)>) -> bool {
    &&& cmdline.len() >= 1
    &&& command_named(cmdline[0]) matches Some(kind) ==> kind_ready(kind, info)
}

/// The answer to a command line: a registered command answers for itself;
/// "help" with a registered command as subject gives that command's long help,
/// with an unregistered subject "B", and without subject "Soon™";
/// any other first word is reported as an unknown command.
pub open spec fn answer_to(cmdline: Seq<Seq<char>>, info: Seq<(Seq<char>, Seq<char>)>) -> ReplyView {
    match command_named(cmdline[0]) {
        Some(kind) => kind_answer(kind, info),
        None => if cmdline[0] == "help"@ {
            if cmdline.len() > 1 {
                match command_named(cmdline[1]) {
                    Some(kind) => ReplyView::NoticeHtml {
                        plain: TextView::HelpPlain { cmd: cmdline[1], help: kind_help(kind, false).0 },
                        html: TextView::HelpHtml { cmd: cmdline[1], help: kind_help(kind, false).1 },
                    },
                    None => ReplyView::NoticePlain(TextView::Literal("B"@)),
                }
            } else {
                ReplyView::NoticePlain(TextView::Literal("Soon™"@))
            }
        } else {
            ReplyView::NoticePlain(TextView::UnknownCommand { cmd: cmdline[0] })
        },
    }
}

/// Whether `execute` can be called on this context.
pub fn can_execute(ctx: &Ctx) -> (b: bool)
    ensures
        b == can_execute_spec(views(ctx.cmdline@), info_view(ctx.info@)),
{
    if ctx.cmdline.len() == 0 {
        return false;
    }
    match lookup_command(ctx.cmdline[0].as_str()) {
        Some(CommandKind::About) => crate::context::has_complete_info(&ctx.info),
        Some(CommandKind::Ping) => true,
        None => true,
    }
}

/// The help of a registered command, as its command object gives it.
fn help_of(kind: CommandKind, short: bool) -> (h: [String; 2])
    ensures
        h@[0]@ == kind_help(kind, short).0,
        h@[1]@ == kind_help(kind, short).1,
{
    match kind {
        CommandKind::About => About::new().help(short),
        CommandKind::Ping => Ping::new().help(short),
    }
}

/// Chooses and builds the answer to the command line held by `ctx`.
pub fn execute(ctx: &Ctx) -> (r: Reply)
    requires
        can_execute_spec(views(ctx.cmdline@), info_view(ctx.info@)),
    ensures
        r@ == answer_to(views(ctx.cmdline@), info_view(ctx.info@)),
        command_named(ctx.cmdline@[0]@) matches Some(kind) ==> r@ == kind_answer(
            kind,
            info_view(ctx.info@),
        ),
{
    let first = ctx.cmdline[0].as_str();
    match lookup_command(first) {
        Some(CommandKind::About) => About::new().handle(ctx),
        Some(CommandKind::Ping) => Ping::new().handle(ctx),
        None => {
            if same_text(first, "help") {
                if ctx.cmdline.len() > 1 {
                    let subject = ctx.cmdline[1].as_str();
                    match lookup_command(subject) {
                        Some(kind) => {
                            let h = help_of(kind, false);
                            let help_plain = h[0].clone();
                            let help_html = h[1].clone();
                            Reply::NoticeHtml {
                                plain: Text::HelpPlain { cmd: subject.to_owned(), help: help_plain },
                                html: Text::HelpHtml { cmd: subject.to_owned(), help: help_html },
                            }
                        },
                        None => Reply::NoticePlain(Text::Literal(String::from_str("B"))),
                    }
                } else {
                    Reply::NoticePlain(Text::Literal(String::from_str("Soon™")))
                }
            } else {
                Reply::NoticePlain(Text::UnknownCommand { cmd: first.to_owned() })
            }
        },
    }
}


/// A command line whose first word is neither a registered command nor
/// "help" is answered with an unknown-command notice naming that word.
pub proof fn law_unknown_command_is_named(
    cmdline: Seq<Seq<char>>,
    info: Seq<(Seq<char>, Seq<char>)>,
)
    requires
        cmdline.len() >= 1,
        command_named(cmdline[0]) is None,
        cmdline[0] != "help"@,
    ensures
        answer_to(cmdline, info) == ReplyView::NoticePlain(
            TextView::UnknownCommand { cmd: cmdline[0] },
        ),
{
}

/// A command line that names a registered command is answered exactly as
/// that command's `handle` answers.
pub proof fn law_execute_delegates(
    cmdline: Seq<Seq<char>>,
    info: Seq<(Seq<char>, Seq<char>)>,
    kind: CommandKind,
)
    requires
        cmdline.len() >= 1,
        command_named(cmdline[0]) == Some(kind),
    ensures
        answer_to(cmdline, info) == kind_answer(kind, info),
        kind == CommandKind::About ==> answer_to(cmdline, info) == (About {  }).answer(info),
        kind == CommandKind::Ping ==> answer_to(cmdline, info) == (Ping {  }).answer(info),
{
}

/// A registered command answers the same whatever words follow its name.
pub proof fn law_answer_ignores_arguments(
    a: Seq<Seq<char>>,
    b: Seq<Seq<char>>,
    info: Seq<(Seq<char>, Seq<char>)>,
)
    requires
        a.len() >= 1,
        b.len() >= 1,
        a[0] == b[0],
        command_named(a[0]) is Some,
    ensures
        answer_to(a, info) == answer_to(b, info),
{
}

/// "help" followed by a registered command gives that command's long help,
/// whatever follows the subject.
pub proof fn law_help_names_subject(
    cmdline: Seq<Seq<char>>,
    info: Seq<(Seq<char>, Seq<char>)>,
    kind: CommandKind,
)
    requires
        cmdline.len() >= 2,
        cmdline[0] == "help"@,
        command_named(cmdline[1]) == Some(kind),
    ensures
        answer_to(cmdline, info) == (ReplyView::NoticeHtml {
            plain: TextView::HelpPlain { cmd: cmdline[1], help: kind_help(kind, false).0 },
            html: TextView::HelpHtml { cmd: cmdline[1], help: kind_help(kind, false).1 },
        }),
{
    reveal_strlit("help");
    reveal_strlit("about");
    reveal_strlit("ping");
    assert("help"@.len() != "about"@.len());
    assert("help"@[0] != "ping"@[0]);
    assert(command_named("help"@) is None);
}

/// Only "about" needs the project's named values: every other non-empty
/// command line can be executed whatever they hold, and with them complete
/// every non-empty command line can.
pub proof fn law_executable(cmdline: Seq<Seq<char>>, info: Seq<(Seq<char>, Seq<char>)>)
    requires
        cmdline.len() >= 1,
    ensures
        cmdline[0] != "about"@ ==> can_execute_spec(cmdline, info),
        crate::context::info_complete(info) ==> can_execute_spec(cmdline, info),
{
}


/// The word "help" names no registered command.
proof fn lemma_help_unregistered()
    ensures
        command_named("help"@) is None,
{
    reveal_strlit("help");
    reveal_strlit("about");
    reveal_strlit("ping");
    assert("help"@.len() != "about"@.len());
    assert("help"@[0] != "ping"@[0]);
}

/// "help" on its own is answered with the plain notice "Soon™", whatever
/// the project information holds.
pub proof fn law_help_alone(info: Seq<(Seq<char>, Seq<char>)>)
    ensures
        answer_to(seq!["help"@], info) == ReplyView::NoticePlain(TextView::Literal("Soon™"@)),
{
    lemma_help_unregistered();
}

/// The answer to a help command does not depend on the project information.
pub proof fn law_help_ignores_info(
    cmdline: Seq<Seq<char>>,
    a: Seq<(Seq<char>, Seq<char>)>,
    b: Seq<(Seq<char>, Seq<char>)>,
)
    requires
        cmdline.len() >= 1,
        cmdline[0] == "help"@,
    ensures
        answer_to(cmdline, a) == answer_to(cmdline, b),
{
    lemma_help_unregistered();
}

/// Every command's long help is empty, in plain text as in HTML.
pub proof fn law_help_texts_empty(kind: CommandKind, short: bool)
    ensures
        kind_help(kind, short) == (Seq::<char>::empty(), Seq::<char>::empty()),
{
}

/// "ping" is answered with the plain notice "Pong 🏓", whatever follows it
/// and whatever the project information holds.
pub proof fn law_ping_pongs(cmdline: Seq<Seq<char>>, info: Seq<(Seq<char>, Seq<char>)>)
    requires
        cmdline.len() >= 1,
        cmdline[0] == "ping"@,
    ensures
        answer_to(cmdline, info) == ReplyView::NoticePlain(TextView::Literal("Pong 🏓"@)),
        (Ping {  }).answer(info) == ReplyView::NoticePlain(TextView::Literal("Pong 🏓"@)),
{
    reveal_strlit("ping");
    reveal_strlit("about");
    assert("ping"@.len() != "about"@.len());
}

/// Where no name is listed twice, "about" answers with the values listed
/// under "DESCRIPTION", "REPOSITORY" and "VERSION", wherever in the list
/// they stand, in the plain-text and the HTML notice alike.
pub proof fn law_about_reads_named_values(
    cmdline: Seq<Seq<char>>,
    info: Seq<(Seq<char>, Seq<char>)>,
    d: int,
    r: int,
    v: int,
)
    requires
        cmdline.len() >= 1,
        cmdline[0] == "about"@,
        info_keys_unique(info),
        0 <= d < info.len(),
        0 <= r < info.len(),
        0 <= v < info.len(),
        info[d].0 == "DESCRIPTION"@,
        info[r].0 == "REPOSITORY"@,
        info[v].0 == "VERSION"@,
    ensures
        answer_to(cmdline, info) == (ReplyView::NoticeHtml {
            plain: TextView::AboutPlain { description: info[d].1, source: info[r].1, version: info[v].1 },
            html: TextView::AboutHtml { description: info[d].1, source: info[r].1, version: info[v].1 },
        }),
{
    law_lookup_unique_key(info, d);
    law_lookup_unique_key(info, r);
    law_lookup_unique_key(info, v);
}

} // verus!
