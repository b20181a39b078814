//! The contexts handed around the bot: what is shared by the whole program,
//! what belongs to one received message, and the command context built from both.
use vstd::prelude::*;
use crate::log::Logger;

verus! {

/// The views of a list of named values.
pub open spec fn info_view(info: Seq<(String, String)>) -> Seq<(Seq<char>, Seq<char>)> {
    info.map_values(|p: (String, String)| (p.0@, p.1@))
}

/// The view of an optional string.
pub open spec fn opt_view(o: Option<String>) -> Option<Seq<char>> {
    match o {
        Some(s) => Some(s@),
        None => None,
    }
}

/// The value first listed under `key`, if any.
pub open spec fn info_lookup(info: Seq<(Seq<char>, Seq<char>)>, key: Seq<char>) -> Option<Seq<char>>
    decreases info.len(),
{
    if info.len() == 0 {
        None
    } else if info[0].0 == key {
        Some(info[0].1)
    } else {
        info_lookup(info.drop_first(), key)
    }
}

/// No name is listed twice.
pub open spec fn info_keys_unique(info: Seq<(Seq<char>, Seq<char>)>) -> bool {
    forall|i: int, j: int| 0 <= i < j < info.len() ==> info[i].0 != info[j].0
}

/// Where no name is listed twice, as in a map, looking a name up gives the
/// value listed under it, wherever it stands.
pub proof fn law_lookup_unique_key(info: Seq<(Seq<char>, Seq<char>)>, i: int)
    requires
        info_keys_unique(info),
        0 <= i < info.len(),
    ensures
        info_lookup(info, info[i].0) == Some(info[i].1),
    decreases i,
{
    if i > 0 {
        let rest = info.drop_first();
        assert(rest[i - 1] == info[i]);
        assert(info[0].0 != info[i].0);
        assert forall|a: int, b: int| 0 <= a < b < rest.len() implies rest[a].0 != rest[b].0 by {
            assert(rest[a] == info[a + 1]);
            assert(rest[b] == info[b + 1]);
        }
        law_lookup_unique_key(rest, i - 1);
    }
}

/// Looking up a name that is not listed gives nothing.
pub proof fn law_lookup_absent(info: Seq<(Seq<char>, Seq<char>)>, key: Seq<char>)
    requires
        forall|i: int| 0 <= i < info.len() ==> info[i].0 != key,
    ensures
        info_lookup(info, key) is None,
    decreases info.len(),
{
    if info.len() > 0 {
        let rest = info.drop_first();
        assert forall|i: int| 0 <= i < rest.len() implies rest[i].0 != key by {
            assert(rest[i] == info[i + 1]);
        }
        law_lookup_absent(rest, key);
    }
}

/// The named values that the descriptions of the project read are all present:
/// "VERSION", "DESCRIPTION" and "REPOSITORY".
pub open spec fn info_complete(info: Seq<(Seq<char>, Seq<char>)>) -> bool {
    &&& info_lookup(info, "VERSION"@) is Some
    &&& info_lookup(info, "DESCRIPTION"@) is Some
    &&& info_lookup(info, "REPOSITORY"@) is Some
}

/// Looks `key` up in a list of named values; the first entry with that name wins.
pub fn lookup_info(info: &Vec<(String, String)>, key: &str) -> (r: Option<String>)
    ensures
        opt_view(r) == info_lookup(info_view(info@), key@),
{
    let mut i: usize = 0;
    let key_owned: String = key.to_owned();
    assert(info_view(info@).skip(0) =~= info_view(info@));
    while i < info.len()
        invariant
            i <= info@.len(),
            key_owned@ == key@,
            info_lookup(info_view(info@), key@) == info_lookup(info_view(info@).skip(i as int), key@),
        decreases info@.len() - i,
    {
        let ghost rest = info_view(info@).skip(i as int);
        assert(rest[0] == (info@[i as int].0@, info@[i as int].1@));
        if info[i].0 == key_owned {
            return Some(info[i].1.clone());
        }
        assert(rest.drop_first() =~= info_view(info@).skip(i + 1));
        i += 1;
    }
    None
}

/// Whether the named values that the descriptions of the project read are all present.
pub fn has_complete_info(info: &Vec<(String, String)>) -> (b: bool)
    ensures
        b == info_complete(info_view(info@)),
{
    lookup_info(info, "VERSION").is_some() && lookup_info(info, "DESCRIPTION").is_some()
        && lookup_info(info, "REPOSITORY").is_some()
}

/// A copy of a list of named values, entry by entry.
pub fn clone_info(info: &Vec<(String, String)>) -> (r: Vec<(String, String)>)
    ensures
        info_view(r@) == info_view(info@),
{
    let mut r: Vec<(String, String)> = Vec::new();
    let mut i: usize = 0;
    while i < info.len()
        invariant
            i <= info@.len(),
            r@.len() == i,
            info_view(r@) == info_view(info@).take(i as int),
        decreases info@.len() - i,
    {
        let name = info[i].0.clone();
        let value = info[i].1.clone();
        let ghost before = r@;
        r.push((name, value));
        assert(r@ == before.push((name, value)));
        assert(info_view(r@)[i as int] == info_view(info@)[i as int]);
        assert(info_view(r@) =~= info_view(info@).take(i + 1));
        i += 1;
    }
    assert(info_view(info@).take(info@.len() as int) =~= info_view(info@));
    r
}

/// Properties shared throughout the entire program.
pub struct GlobalCtx {
    pub info: Vec<(String, String)>,
    pub hs_url: String,
    pub username: String,
    pub command_prefix: String,
    pub lang: String,
    pub logger: Logger,
}

impl GlobalCtx {
    pub fn new(
        info: Vec<(String, String)>,
        hs_url: String,
        username: String,
        command_prefix: String,
        lang: String,
        logger: Logger,
    ) -> (c: Self)
        ensures
            c.info == info,
            c.hs_url == hs_url,
            c.username == username,
            c.command_prefix == command_prefix,
            c.lang == lang,
            c.logger == logger,
    {
        GlobalCtx { info, hs_url, username, command_prefix, lang, logger }
    }
}

/// Properties of one received message.
pub struct EventCtx {
    pub body: String,
    pub sender: String,
}

impl EventCtx {
    pub fn new(body: String, sender: String) -> (c: Self)
        ensures
            c.body == body,
            c.sender == sender,
    {
        EventCtx { body, sender }
    }
}

/// Everything a command needs: the shared settings, the command line
/// (the words after the prefix) and who sent it.
pub struct Ctx {
    pub info: Vec<(String, String)>,
    pub username: String,
    pub command_prefix: String,
    pub lang: String,
    pub logger: Logger,
    pub cmdline: Vec<String>,
    pub sender: String,
}

impl Ctx {
    pub fn new(
        info: Vec<(String, String)>,
        username: String,
        command_prefix: String,
        lang: String,
        logger: Logger,
        cmdline: Vec<String>,
        sender: String,
    ) -> (c: Self)
        ensures
            c.info == info,
            c.username == username,
            c.command_prefix == command_prefix,
            c.lang == lang,
            c.logger == logger,
            c.cmdline == cmdline,
            c.sender == sender,
    {
        Ctx { info, username, command_prefix, lang, logger, cmdline, sender }
    }
}

} // verus!
