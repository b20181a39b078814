//! Interactions with the Matrix network that can be decided without it:
//! checking the homeserver address, and turning a received message into a
//! command context.
use vstd::prelude::*;
use crate::context::{Ctx, clone_info, info_view};
use crate::log::Logger;
use crate::text::{is_split_on, same_text, split_on_space, starts_with, views, char_range};

verus! {

#[verifier::external_type_specification]
#[verifier::external_body]
pub struct ExUrl(url::Url);

#[verifier::external_type_specification]
#[verifier::external_body]
pub struct ExUrlParseError(url::ParseError);

/// Whether `url::Url::parse` accepts the text as an absolute URL.
pub uninterp spec fn url_parses(s: Seq<char>) -> bool;

/// The URL that `url::Url::parse` makes of the text, where it accepts it.
pub uninterp spec fn parsed_url(s: Seq<char>) -> url::Url;

/// The error that `url::Url::parse` reports for the text, where it refuses it.
pub uninterp spec fn url_parse_error(s: Seq<char>) -> url::ParseError;

/// Calls `url::Url::parse`, whose outcome depends on the text alone: it
/// succeeds exactly when `url_parses` holds of the text, and then gives
/// `parsed_url` of it, else the error `url_parse_error` of it. What the
/// parsed URL holds is left unsaid.
#[verifier::external_body]
fn parse_url(s: &str) -> (r: Result<url::Url, url::ParseError>)
    ensures
        r is Ok <==> url_parses(s@),
        r matches Ok(u) ==> u == parsed_url(s@),
        r matches Err(e) ==> e == url_parse_error(s@),
{
    url::Url::parse(s)
}

/// Why connecting to the homeserver could not start.
#[derive(Debug)]
pub enum ConnectError {
    /// The homeserver address is not a URL.
    InvalidUrl(url::ParseError),
}

/// Parses the homeserver address that the client connects to.
pub fn homeserver_url(hs_url: &str) -> (r: Result<url::Url, ConnectError>)
    ensures
        r is Ok <==> url_parses(hs_url@),
        r matches Ok(u) ==> u == parsed_url(hs_url@),
        r matches Err(ConnectError::InvalidUrl(e)) ==> e == url_parse_error(hs_url@),
{
    match parse_url(hs_url) {
        Ok(u) => Ok(u),
        Err(e) => Err(ConnectError::InvalidUrl(e)),
    }
}

/// Whether the sync loop goes on or stops.
#[derive(Debug, Clone, Copy, PartialEq, Eq, Structural)]
pub enum SyncControl {
    Continue,
    Break,
}

/// The sync loop stops once the exit flag is set, and goes on otherwise.
pub fn sync_control(exiting: bool) -> (c: SyncControl)
    ensures
        c == if exiting {
            SyncControl::Break
        } else {
            SyncControl::Continue
        },
{
    if exiting {
        SyncControl::Break
    } else {
        SyncControl::Continue
    }
}

/// The event handler that processes incoming messages.
pub struct MxSelfBotEventHandler {
    pub ctx: Ctx,
}

impl MxSelfBotEventHandler {
    pub fn new(
        info: Vec<(String, String)>,
        username: String,
        command_prefix: String,
        lang: String,
        logger: Logger,
    ) -> (h: Self)
        ensures
            h.ctx.info == info,
            h.ctx.username == username,
            h.ctx.command_prefix == command_prefix,
            h.ctx.lang == lang,
            h.ctx.logger == logger,
            h.ctx.cmdline@.len() == 0,
            h.ctx.sender@ == Seq::<char>::empty(),
    {
        let ctx = Ctx::new(info, username, command_prefix, lang, logger, Vec::new(), String::new());
        MxSelfBotEventHandler { ctx }
    }

    /// Decides what a room message from `sender` leads to. `in_joined_room`
    /// tells whether the room is one the account has joined, and `text_body`
    /// is the body of a text message (`None` for other message types).
    /// Only text messages in joined rooms that start with the command prefix
    /// and are sent by the bot's own account are commands; for those, the
    /// result is a copy of the handler's context whose command line is the
    /// rest of the body split at every space, and whose sender is `sender`.
    pub fn on_room_message(&self, in_joined_room: bool, text_body: Option<&str>, sender: &str) -> (r: Option<Ctx>)
        ensures
            r is Some <==> (in_joined_room && text_body is Some
                && self.ctx.command_prefix@.is_prefix_of(text_body.unwrap()@) && sender@
                == self.ctx.username@),
            r matches Some(c) ==> {
                &&& info_view(c.info@) == info_view(self.ctx.info@)
                &&& c.username@ == self.ctx.username@
                &&& c.command_prefix@ == self.ctx.command_prefix@
                &&& c.lang@ == self.ctx.lang@
                &&& c.logger == self.ctx.logger
                &&& c.sender@ == sender@
                &&& is_split_on(
                    text_body.unwrap()@.skip(self.ctx.command_prefix@.len() as int),
                    ' ',
                    views(c.cmdline@),
                )
            },
    {
        if !in_joined_room {
            return None;
        }
        let body = match text_body {
            Some(b) => b,
            None => return None,
        };
        let prefix = self.ctx.command_prefix.as_str();
        if !(starts_with(body, prefix) && same_text(sender, self.ctx.username.as_str())) {
            return None;
        }
        let rest = char_range(body, prefix.unicode_len(), body.unicode_len());
        assert(rest@ =~= body@.skip(prefix@.len() as int));
        let cmdline = split_on_space(rest.as_str());
        let ctx = Ctx {
            info: clone_info(&self.ctx.info),
            username: self.ctx.username.clone(),
            command_prefix: self.ctx.command_prefix.clone(),
            lang: self.ctx.lang.clone(),
            logger: self.ctx.logger,
            cmdline,
            sender: sender.to_owned(),
        };
        Some(ctx)
    }
}

} // verus!
