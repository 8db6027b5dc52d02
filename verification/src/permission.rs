//! Who may command a session, decided from what is known of the guild.

use std::collections::HashMap;
use vstd::prelude::*;

verus! {

/// The name of the role that lets a member command the sessions.
pub const DJ_ROLE: &'static str = "DJUser";

/// What is read of a guild: the names of its roles by role id, and for each
/// user with a voice state the id of the voice channel the user is in, if
/// any.
#[derive(Debug)]
pub struct Guild {
    pub id: u64,
    pub roles: HashMap<u64, String>,
    pub voice_states: HashMap<u64, Option<u64>>,
}

/// What is read of a message: the id of its author and, where the author is
/// a member of the guild, the ids of the member's roles.
#[derive(Debug)]
pub struct Message {
    pub author: u64,
    pub member_roles: Option<Vec<u64>>,
}

/// What the check before a command comes to.
#[derive(Clone, Copy, Debug, PartialEq, Eq, Structural)]
pub enum Verdict {
    /// The command runs.
    Run,
    /// The guild of the message is not known; nothing is said.
    NoGuild,
    /// The author is in no voice channel; the caller says so.
    NotInChannel,
    /// The author lacks the role; the caller says so.
    MissingRole,
    /// The author is no member of the guild; nothing is said.
    NoMember,
    /// There is no voice manager; the caller says so.
    NoManager,
    /// The session's track plays in another channel. For a join, the caller
    /// names the channel the author is in.
    Busy { announce: Option<u64> },
}

/// Whether one of `roles` is a role of the guild named `DJUser`.
pub open spec fn holds_dj_role(guild: &Guild, roles: Seq<u64>) -> bool {
    exists|i: int|
        0 <= i < roles.len() && guild.roles@.contains_key(#[trigger] roles[i])
            && guild.roles@[roles[i]]@ == DJ_ROLE@
}

/// The voice channel that `user` is in.
pub open spec fn channel_of(guild: &Guild, user: u64) -> Option<u64> {
    if guild.voice_states@.contains_key(user) {
        guild.voice_states@[user]
    } else {
        None
    }
}

/// Whether a command is open to everyone: those that only show something.
pub open spec fn is_open_command(name: Seq<char>) -> bool {
    ||| name == "help"@
    ||| name == "q"@
    ||| name == "queue"@
    ||| name == "current"@
    ||| name == "np"@
    ||| name == "nowplaying"@
    ||| name == "\u{306a}\u{3046}\u{3077}\u{308c}"@
}

/// What the author of `msg` may do, as far as the author goes.
pub open spec fn access_of(guild: &Guild, msg: &Message) -> Verdict {
    if channel_of(guild, msg.author) is None {
        Verdict::NotInChannel
    } else {
        match msg.member_roles {
            Some(roles) => if holds_dj_role(guild, roles@) {
                Verdict::Run
            } else {
                Verdict::MissingRole
            },
            None => Verdict::NoMember,
        }
    }
}

/// Whether the session is busy for the author of `msg`: the author is in a
/// voice channel, the session is connected to another one, and its track
/// plays there.
pub open spec fn busy_elsewhere(
    guild: &Guild,
    msg: &Message,
    bot_channel: Option<u64>,
    playing: bool,
) -> bool {
    match (channel_of(guild, msg.author), bot_channel) {
        (Some(mine), Some(theirs)) => mine != theirs && playing,
        _ => false,
    }
}

/// What the check before the command `name` comes to.
pub open spec fn verdict_of(
    name: Seq<char>,
    guild: Option<&Guild>,
    msg: &Message,
    manager: bool,
    bot_channel: Option<u64>,
    playing: bool,
) -> Verdict {
    if is_open_command(name) {
        Verdict::Run
    } else {
        match guild {
            None => Verdict::NoGuild,
            Some(g) => if access_of(g, msg) != Verdict::Run {
                access_of(g, msg)
            } else if !manager {
                Verdict::NoManager
            } else if busy_elsewhere(g, msg, bot_channel, playing) {
                Verdict::Busy {
                    announce: if name == "join"@ {
                        channel_of(g, msg.author)
                    } else {
                        None
                    },
                }
            } else {
                Verdict::Run
            },
        }
    }
}

fn same_text(left: &str, right: &str) -> (same: bool)
    ensures
        same == (left@ == right@),
{
    left.to_owned() == right.to_owned()
}

fn voice_channel(guild: &Guild, user: u64) -> (channel: Option<u64>)
    ensures
        channel == channel_of(guild, user),
{
    broadcast use vstd::std_specs::hash::group_hash_axioms;

    match guild.voice_states.get(&user) {
        Some(state) => *state,
        None => None,
    }
}

/// Whether one of `roles` is a role of the guild named `DJUser`.
pub fn has_dj_user(guild: &Guild, roles: &Vec<u64>) -> (found: bool)
    ensures
        found == holds_dj_role(guild, roles@),
{
    broadcast use vstd::std_specs::hash::group_hash_axioms;

    let mut i: usize = 0;
    while i < roles.len()
        invariant
            i <= roles.len(),
            forall|j: int|
                0 <= j < i ==> !(guild.roles@.contains_key(#[trigger] roles@[j])
                    && guild.roles@[roles@[j]]@ == DJ_ROLE@),
        decreases roles.len() - i,
    {
        match guild.roles.get(&roles[i]) {
            Some(name) => {
                if same_text(name.as_str(), DJ_ROLE) {
                    return true;
                }
            },
            None => {},
        }
        i = i + 1;
    }
    false
}

/// Whether the author of `msg` is in a voice channel of the guild.
pub fn in_channel(guild: &Guild, msg: &Message) -> (inside: bool)
    ensures
        inside == channel_of(guild, msg.author) is Some,
{
    voice_channel(guild, msg.author).is_some()
}

/// Whether the author of `msg` may command the sessions of the guild: the
/// author must be in a voice channel and hold the role `DJUser`. The verdict
/// says which of the two is missing, for the caller to tell the author.
pub fn check_user_can_use_command(guild: &Guild, msg: &Message) -> (verdict: Verdict)
    ensures
        verdict == access_of(guild, msg),
{
    if !in_channel(guild, msg) {
        return Verdict::NotInChannel;
    }
    match &msg.member_roles {
        Some(roles) => {
            if has_dj_user(guild, roles) {
                Verdict::Run
            } else {
                Verdict::MissingRole
            }
        },
        None => Verdict::NoMember,
    }
}

/// Whether the session is busy for the author of `msg`. `bot_channel` is the
/// voice channel the session is connected to, if any; `playing` is whether
/// its current track plays at this moment.
pub fn check_bot_using_at_other_chan(
    guild: &Guild,
    msg: &Message,
    bot_channel: Option<u64>,
    playing: bool,
) -> (busy: bool)
    ensures
        busy == busy_elsewhere(guild, msg, bot_channel, playing),
{
    match voice_channel(guild, msg.author) {
        Some(mine) => match bot_channel {
            Some(theirs) => mine != theirs && playing,
            None => false,
        },
        None => false,
    }
}

/// Whether a command is open to everyone.
pub fn is_excluded(name: &str) -> (open: bool)
    ensures
        open == is_open_command(name@),
{
    same_text(name, "help") || same_text(name, "q") || same_text(name, "queue") || same_text(
        name,
        "current",
    ) || same_text(name, "np") || same_text(name, "nowplaying") || same_text(
        name,
        "\u{306a}\u{3046}\u{3077}\u{308c}",
    )
}

/// The check before a command: decides whether the command `name` runs for
/// the author of `msg`. Commands that only show something run for everyone.
/// For the others the guild must be known, the author must be in a voice
/// channel and hold the role, there must be a voice manager (`manager`), and
/// the session must not be busy in another channel.
pub fn before(
    name: &str,
    guild: Option<&Guild>,
    msg: &Message,
    manager: bool,
    bot_channel: Option<u64>,
    playing: bool,
) -> (verdict: Verdict)
    ensures
        verdict == verdict_of(name@, guild, msg, manager, bot_channel, playing),
{
    if is_excluded(name) {
        return Verdict::Run;
    }
    let guild = match guild {
        Some(g) => g,
        None => {
            return Verdict::NoGuild;
        },
    };
    let access = check_user_can_use_command(guild, msg);
    match access {
        Verdict::Run => {},
        _ => {
            return access;
        },
    }
    if !manager {
        return Verdict::NoManager;
    }
    if check_bot_using_at_other_chan(guild, msg, bot_channel, playing) {
        let announce = if same_text(name, "join") {
            voice_channel(guild, msg.author)
        } else {
            None
        };
        return Verdict::Busy { announce };
    }
    Verdict::Run
}

} // verus!
