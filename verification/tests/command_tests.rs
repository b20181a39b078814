use mxselfbot::cmds::about::About;
use mxselfbot::cmds::info::Info;
use mxselfbot::cmds::ping::Ping;
use mxselfbot::cmds::{can_execute, execute, lookup_command, Command, CommandKind};
use mxselfbot::context::{has_complete_info, lookup_info, Ctx};
use mxselfbot::log::Logger;
use mxselfbot::reply::{Reply, Text};

fn info() -> Vec<(String, String)> {
    vec![
        ("VERSION".to_string(), "0.1.0".to_string()),
        ("DESCRIPTION".to_string(), "A self-bot".to_string()),
        ("REPOSITORY".to_string(), "https://example.org/repo".to_string()),
    ]
}

fn ctx_with(info: Vec<(String, String)>, words: &[&str]) -> Ctx {
    Ctx::new(
        info,
        "@me:example.org".to_string(),
        "!s ".to_string(),
        "en_GB".to_string(),
        Logger::new(),
        words.iter().map(|s| s.to_string()).collect(),
        "@me:example.org".to_string(),
    )
}

fn lit(s: &str) -> Text {
    Text::Literal(s.to_string())
}

#[test]
fn registry() {
    assert_eq!(lookup_command("about"), Some(CommandKind::About));
    assert_eq!(lookup_command("ping"), Some(CommandKind::Ping));
    assert_eq!(lookup_command("help"), None);
    assert_eq!(lookup_command("info"), None);
    assert_eq!(lookup_command("Ping"), None);
}

#[test]
fn info_lookup_first_wins() {
    let mut i = info();
    i.push(("VERSION".to_string(), "9".to_string()));
    assert_eq!(lookup_info(&i, "VERSION"), Some("0.1.0".to_string()));
    assert_eq!(lookup_info(&i, "AUTHORS"), None);
    assert!(has_complete_info(&i));
    assert!(!has_complete_info(&info()[1..].to_vec()));
}

#[test]
fn ping_pongs() {
    let c = ctx_with(vec![], &["ping"]);
    assert!(can_execute(&c));
    assert_eq!(execute(&c), Reply::NoticePlain(lit("Pong 🏓")));
}

#[test]
fn ping_ignores_arguments() {
    let c = ctx_with(vec![], &["ping", "extra", ""]);
    assert_eq!(execute(&c), Reply::NoticePlain(lit("Pong 🏓")));
}

#[test]
fn about_describes_project() {
    let c = ctx_with(info(), &["about"]);
    assert!(can_execute(&c));
    let d = "A self-bot".to_string();
    let s = "https://example.org/repo".to_string();
    let v = "0.1.0".to_string();
    assert_eq!(
        execute(&c),
        Reply::NoticeHtml {
            plain: Text::AboutPlain { description: d.clone(), source: s.clone(), version: v.clone() },
            html: Text::AboutHtml { description: d, source: s, version: v },
        }
    );
}

#[test]
fn about_needs_project_info() {
    let c = ctx_with(vec![], &["about"]);
    assert!(!can_execute(&c));
    let c = ctx_with(vec![], &[]);
    assert!(!can_execute(&c));
}

#[test]
fn help_for_registered_command() {
    let c = ctx_with(vec![], &["help", "ping"]);
    assert_eq!(
        execute(&c),
        Reply::NoticeHtml {
            plain: Text::HelpPlain { cmd: "ping".to_string(), help: String::new() },
            html: Text::HelpHtml { cmd: "ping".to_string(), help: String::new() },
        }
    );
}

#[test]
fn help_for_unknown_subject() {
    let c = ctx_with(vec![], &["help", "dance"]);
    assert_eq!(execute(&c), Reply::NoticePlain(lit("B")));
}

#[test]
fn help_without_subject() {
    let c = ctx_with(vec![], &["help"]);
    assert_eq!(execute(&c), Reply::NoticePlain(lit("Soon™")));
}

#[test]
fn unknown_command_is_named() {
    let c = ctx_with(vec![], &["dance", "now"]);
    assert!(can_execute(&c));
    assert_eq!(
        execute(&c),
        Reply::NoticePlain(Text::UnknownCommand { cmd: "dance".to_string() })
    );
    let c = ctx_with(vec![], &[""]);
    assert_eq!(execute(&c), Reply::NoticePlain(Text::UnknownCommand { cmd: String::new() }));
}

#[test]
fn help_texts_are_empty() {
    for short in [true, false] {
        let empty = [String::new(), String::new()];
        assert_eq!(About::new().help(short), empty);
        assert_eq!(Ping::new().help(short), empty);
        assert_eq!(Info::new().help(short), empty);
    }
}

#[test]
fn info_command_text() {
    let c = ctx_with(info(), &["info"]);
    assert_eq!(
        Info::new().handle(&c),
        Reply::NoticeHtml {
            plain: lit(" | MxSelfBot v0.1.0 | \nA self-bot\n\n Source code URL: https://example.org/repo"),
            html: lit(" <h1>MxSelfBot v0.1.0</h1><i>A self-bot</i><br/><br/>Source code URL: https://example.org/repo"),
        }
    );
}
