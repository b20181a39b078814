use mxselfbot::config::{is_available_lang, resolve_config, select_lang, ConfigError};
use mxselfbot::context::{EventCtx, GlobalCtx};
use mxselfbot::log::Logger;
use mxselfbot::mxclient::{homeserver_url, sync_control, ConnectError, MxSelfBotEventHandler, SyncControl};

fn handler() -> MxSelfBotEventHandler {
    MxSelfBotEventHandler::new(
        vec![("VERSION".to_string(), "1".to_string())],
        "@me:example.org".to_string(),
        "!s ".to_string(),
        "en_GB".to_string(),
        Logger::new(),
    )
}

#[test]
fn new_handler_has_empty_command_line() {
    let h = handler();
    assert!(h.ctx.cmdline.is_empty());
    assert!(h.ctx.sender.is_empty());
    assert_eq!(h.ctx.command_prefix, "!s ");
}

#[test]
fn own_prefixed_message_is_a_command() {
    let h = handler();
    let c = h.on_room_message(true, Some("!s help about"), "@me:example.org").unwrap();
    assert_eq!(c.cmdline, vec!["help".to_string(), "about".to_string()]);
    assert_eq!(c.sender, "@me:example.org");
    assert_eq!(c.username, "@me:example.org");
    assert_eq!(c.lang, "en_GB");
    assert_eq!(c.info, vec![("VERSION".to_string(), "1".to_string())]);
}

#[test]
fn prefix_alone_gives_one_empty_word() {
    let h = handler();
    let c = h.on_room_message(true, Some("!s "), "@me:example.org").unwrap();
    assert_eq!(c.cmdline, vec![String::new()]);
}

#[test]
fn others_messages_are_ignored() {
    let h = handler();
    assert!(h.on_room_message(true, Some("!s ping"), "@you:example.org").is_none());
}

#[test]
fn unprefixed_messages_are_ignored() {
    let h = handler();
    assert!(h.on_room_message(true, Some("ping"), "@me:example.org").is_none());
    assert!(h.on_room_message(true, Some("!sping"), "@me:example.org").is_none());
}

#[test]
fn language_choice() {
    assert!(is_available_lang("en_GB"));
    assert!(!is_available_lang("fr"));
    let c = select_lang(Some("en_GB"));
    assert_eq!(c.lang, "en_GB");
    assert_eq!(c.rejected, None);
    let c = select_lang(Some("de_DE"));
    assert_eq!(c.lang, "en_GB");
    assert_eq!(c.rejected, Some("de_DE".to_string()));
    let c = select_lang(None);
    assert_eq!(c.lang, "en_GB");
    assert_eq!(c.rejected, None);
}

fn s(x: &str) -> Option<String> {
    Some(x.to_string())
}

#[test]
fn config_complete() {
    let o = resolve_config(s("fr"), s("https://hs"), s("@me:hs"), s("pw"), None);
    assert_eq!(o.lang, "en_GB");
    assert_eq!(o.lang_rejected, s("fr"));
    assert!(o.prefix_defaulted);
    let c = o.result.ok().unwrap();
    assert_eq!(c.homeserver_url, "https://hs");
    assert_eq!(c.username, "@me:hs");
    assert_eq!(c.password, "pw");
    assert_eq!(c.command_prefix, "!s ");
}

#[test]
fn config_keeps_given_prefix() {
    let o = resolve_config(None, s("h"), s("u"), s("p"), s("> "));
    assert!(!o.prefix_defaulted);
    assert_eq!(o.result.ok().unwrap().command_prefix, "> ");
}

#[test]
fn config_reports_first_missing_setting() {
    let o = resolve_config(None, None, None, None, None);
    assert_eq!(o.result.err(), Some(ConfigError::MissingHomeserverUrl));
    assert!(!o.prefix_defaulted);
    let o = resolve_config(None, s("h"), None, None, s("x"));
    assert_eq!(o.result.err(), Some(ConfigError::MissingUsername));
    let o = resolve_config(s("en_GB"), s("h"), s("u"), None, None);
    assert_eq!(o.result.err(), Some(ConfigError::MissingPassword));
    assert_eq!(o.lang, "en_GB");
}

#[test]
fn homeserver_address() {
    let u = homeserver_url("https://matrix.example.org").unwrap();
    assert_eq!(u.host_str(), Some("matrix.example.org"));
    assert!(matches!(homeserver_url("not a url"), Err(ConnectError::InvalidUrl(_))));
    assert!(homeserver_url("").is_err());
}

#[test]
fn context_constructors() {
    let g = GlobalCtx::new(vec![], "h".to_string(), "u".to_string(), "!s ".to_string(), "en_GB".to_string(), Logger::new());
    assert_eq!(g.hs_url, "h");
    assert_eq!(g.command_prefix, "!s ");
    let e = EventCtx::new("!s ping".to_string(), "@me:hs".to_string());
    assert_eq!(e.body, "!s ping");
    assert_eq!(e.sender, "@me:hs");
}

#[test]
fn homeserver_url_is_the_given_address() {
    for a in ["https://matrix.example.org", "http://localhost:8008/path"] {
        assert_eq!(homeserver_url(a).unwrap(), url::Url::parse(a).unwrap());
    }
}

#[test]
fn sync_stops_once_exiting() {
    assert_eq!(sync_control(true), SyncControl::Break);
    assert_eq!(sync_control(false), SyncControl::Continue);
}

#[test]
fn only_text_in_joined_rooms() {
    let h = handler();
    assert!(h.on_room_message(false, Some("!s ping"), "@me:example.org").is_none());
    assert!(h.on_room_message(true, None, "@me:example.org").is_none());
    assert!(h.on_room_message(true, Some("!s ping"), "@me:example.org").is_some());
}

#[test]
fn homeserver_url_reports_the_parse_error() {
    match homeserver_url("not a url") {
        Err(ConnectError::InvalidUrl(e)) => assert_eq!(Some(e), url::Url::parse("not a url").err()),
        Ok(_) => panic!("accepted"),
    }
}
