//! Settings taken from the environment: the language of messages, the
//! homeserver and account, and the command prefix.
use vstd::prelude::*;
use crate::context::opt_view;
use crate::text::same_text;

verus! {

/// The language codes that have translations.
pub open spec fn available_langs() -> Seq<Seq<char>> {
    seq!["en_GB"@]
}

/// The prefix used when none is configured.
pub open spec fn default_prefix() -> Seq<char> {
    "!s "@
}

/// Whether translations exist for `code`.
pub fn is_available_lang(code: &str) -> (b: bool)
    ensures
        b == available_langs().contains(code@),
{
    let b = same_text(code, "en_GB");
    proof {
        if b {
            assert(available_langs()[0] == code@);
        }
    }
    b
}

/// The first available language, used when none or an unavailable one is asked for.
pub fn fallback_lang() -> (s: String)
    ensures
        s@ == available_langs()[0],
{
    String::from_str("en_GB")
}

/// The language chosen for messages, and the requested code when it had to be refused.
pub struct LangChoice {
    pub lang: String,
    pub rejected: Option<String>,
}

/// The language that `requested` leads to: itself when translations exist
/// for it, else the fallback; the fallback also when nothing is requested.
pub open spec fn chosen_lang(requested: Option<Seq<char>>) -> Seq<char> {
    match requested {
        Some(r) => if available_langs().contains(r) {
            r
        } else {
            available_langs()[0]
        },
        None => available_langs()[0],
    }
}

/// The requested code, when it names no available language.
pub open spec fn rejected_lang(requested: Option<Seq<char>>) -> Option<Seq<char>> {
    match requested {
        Some(r) => if available_langs().contains(r) {
            None
        } else {
            Some(r)
        },
        None => None,
    }
}

/// The view of an optional borrowed string.
pub open spec fn opt_str_view(o: Option<&str>) -> Option<Seq<char>> {
    match o {
        Some(s) => Some(s@),
        None => None,
    }
}

/// Chooses the language of messages from the requested code.
pub fn select_lang(requested: Option<&str>) -> (c: LangChoice)
    ensures
        c.lang@ == chosen_lang(opt_str_view(requested)),
        opt_view(c.rejected) == rejected_lang(opt_str_view(requested)),
        available_langs().contains(c.lang@),
{
    proof {
        assert(available_langs()[0] == "en_GB"@);
        assert(available_langs().contains(available_langs()[0]));
    }
    match requested {
        Some(r) => {
            if is_available_lang(r) {
                LangChoice { lang: r.to_owned(), rejected: None }
            } else {
                LangChoice { lang: fallback_lang(), rejected: Some(r.to_owned()) }
            }
        },
        None => LangChoice { lang: fallback_lang(), rejected: None },
    }
}

/// The settings the bot runs with.
pub struct Config {
    pub homeserver_url: String,
    pub username: String,
    pub password: String,
    pub command_prefix: String,
}

/// A required setting that is missing.
#[derive(Debug, Clone, Copy, PartialEq, Eq, Structural)]
pub enum ConfigError {
    MissingHomeserverUrl,
    MissingUsername,
    MissingPassword,
}

/// What the settings lead to: the language of messages (known even when a
/// setting is missing), the refused language code if any, the settings or
/// the first missing one, and whether the prefix fell back to its default.
pub struct ConfigOutcome {
    pub lang: String,
    pub lang_rejected: Option<String>,
    pub result: Result<Config, ConfigError>,
    pub prefix_defaulted: bool,
}

/// The first required setting that is missing, in the order homeserver,
/// user, password.
pub open spec fn missing_setting(hs_url: Option<String>, user: Option<String>, pass: Option<String>) -> Option<ConfigError> {
    if hs_url is None {
        Some(ConfigError::MissingHomeserverUrl)
    } else if user is None {
        Some(ConfigError::MissingUsername)
    } else if pass is None {
        Some(ConfigError::MissingPassword)
    } else {
        None
    }
}

/// Resolves the settings from the values found (or not) in the environment.
pub fn resolve_config(
    lang: Option<String>,
    hs_url: Option<String>,
    user: Option<String>,
    pass: Option<String>,
    prefix: Option<String>,
) -> (o: ConfigOutcome)
    ensures
        o.lang@ == chosen_lang(opt_view(lang)),
        opt_view(o.lang_rejected) == rejected_lang(opt_view(lang)),
        match missing_setting(hs_url, user, pass) {
            Some(e) => o.result == Err::<Config, ConfigError>(e) && !o.prefix_defaulted,
            None => o.result matches Ok(c) && {
                &&& c.homeserver_url@ == hs_url.unwrap()@
                &&& c.username@ == user.unwrap()@
                &&& c.password@ == pass.unwrap()@
                &&& c.command_prefix@ == match prefix {
                    Some(p) => p@,
                    None => default_prefix(),
                }
                &&& o.prefix_defaulted == (prefix is None)
            },
        },
{
    let choice = match &lang {
        Some(l) => select_lang(Some(l.as_str())),
        None => select_lang(None),
    };
    let result = match (hs_url, user, pass) {
        (None, _, _) => Err(ConfigError::MissingHomeserverUrl),
        (Some(_), None, _) => Err(ConfigError::MissingUsername),
        (Some(_), Some(_), None) => Err(ConfigError::MissingPassword),
        (Some(h), Some(u), Some(p)) => Ok((h, u, p)),
    };
    match result {
        Err(e) => ConfigOutcome {
            lang: choice.lang,
            lang_rejected: choice.rejected,
            result: Err(e),
            prefix_defaulted: false,
        },
        Ok((h, u, p)) => {
            let (command_prefix, prefix_defaulted) = match prefix {
                Some(x) => (x, false),
                None => (String::from_str("!s "), true),
            };
            ConfigOutcome {
                lang: choice.lang,
                lang_rejected: choice.rejected,
                result: Ok(
                    Config { homeserver_url: h, username: u, password: p, command_prefix },
                ),
                prefix_defaulted,
            }
        },
    }
}


/// Whatever is requested, the chosen language has translations.
pub proof fn law_chosen_lang_available(requested: Option<Seq<char>>)
    ensures
        available_langs().contains(chosen_lang(requested)),
{
    assert(available_langs()[0] == "en_GB"@);
    assert(available_langs().contains(available_langs()[0]));
}

/// A request is either honoured as it stands or refused and reported; never both.
pub proof fn law_lang_honoured_or_reported(requested: Seq<char>)
    ensures
        rejected_lang(Some(requested)) is None ==> chosen_lang(Some(requested)) == requested,
        rejected_lang(Some(requested)) is Some ==> chosen_lang(Some(requested))
            == available_langs()[0] && rejected_lang(Some(requested)) == Some(requested),
        rejected_lang(Some(requested)) is Some <==> !available_langs().contains(requested),
{
}

} // verus!
