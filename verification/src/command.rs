//! The command grammar: from a message body to a command word and its
//! arguments, and from the command word to the command that it names.

use crate::campaign::arg_at;
use crate::text::{ascii_lowercase, chars_of, lower, same_text, split_whitespace, string_of};
use crate::text::{texts, tokens};
use crate::users::TrustTier;
use vstd::prelude::*;

verus! {

/// The character that marks a command word.
pub const MARKER: char = '!';

/// How many joined members make a room a direct conversation, in which
/// every message is a command.
pub const DIRECT_MEMBERS: usize = 2;

/// The commands.
#[derive(Clone, Copy, Debug, PartialEq, Eq, Structural)]
pub enum CommandKind {
    Help,
    Ping,
    PingMe,
    PingRoom,
    EventId,
    RoomId,
    Mxc,
    Spam,
    StickerSpam,
    Sticker,
    Image,
    Thumb,
    ImageSpam,
    Tts,
    Thread,
    Reply,
    Typing,
    BrokenSticker,
    WhoAmI,
    BridgeId,
    Invite,
}

/// The command that a command word names, if it names one.
pub open spec fn kind_of(name: Seq<char>) -> Option<CommandKind> {
    if name == "help"@ {
        Some(CommandKind::Help)
    } else if name == "ping"@ {
        Some(CommandKind::Ping)
    } else if name == "pingme"@ {
        Some(CommandKind::PingMe)
    } else if name == "pingroom"@ {
        Some(CommandKind::PingRoom)
    } else if name == "event"@ || name == "eventid"@ || name == "id"@ {
        Some(CommandKind::EventId)
    } else if name == "room"@ || name == "roomid"@ {
        Some(CommandKind::RoomId)
    } else if name == "mxc"@ {
        Some(CommandKind::Mxc)
    } else if name == "spam"@ {
        Some(CommandKind::Spam)
    } else if name == "stickerspam"@ {
        Some(CommandKind::StickerSpam)
    } else if name == "sticker"@ {
        Some(CommandKind::Sticker)
    } else if name == "image"@ {
        Some(CommandKind::Image)
    } else if name == "thumb"@ || name == "thumbnail"@ {
        Some(CommandKind::Thumb)
    } else if name == "imagespam"@ {
        Some(CommandKind::ImageSpam)
    } else if name == "tts"@ || name == "audio"@ || name == "voice"@ {
        Some(CommandKind::Tts)
    } else if name == "thread"@ {
        Some(CommandKind::Thread)
    } else if name == "reply"@ || name == "replies"@ {
        Some(CommandKind::Reply)
    } else if name == "typing"@ {
        Some(CommandKind::Typing)
    } else if name == "broken-sticker"@ {
        Some(CommandKind::BrokenSticker)
    } else if name == "whoami"@ {
        Some(CommandKind::WhoAmI)
    } else if name == "bridge-id"@ {
        Some(CommandKind::BridgeId)
    } else if name == "invite"@ {
        Some(CommandKind::Invite)
    } else {
        None
    }
}

/// Looks a command word up.
pub fn command_kind(name: &str) -> (r: Option<CommandKind>)
    ensures
        r == kind_of(name@),
{
    if same_text(name, "help") {
        Some(CommandKind::Help)
    } else if same_text(name, "ping") {
        Some(CommandKind::Ping)
    } else if same_text(name, "pingme") {
        Some(CommandKind::PingMe)
    } else if same_text(name, "pingroom") {
        Some(CommandKind::PingRoom)
    } else if same_text(name, "event") || same_text(name, "eventid") || same_text(name, "id") {
        Some(CommandKind::EventId)
    } else if same_text(name, "room") || same_text(name, "roomid") {
        Some(CommandKind::RoomId)
    } else if same_text(name, "mxc") {
        Some(CommandKind::Mxc)
    } else if same_text(name, "spam") {
        Some(CommandKind::Spam)
    } else if same_text(name, "stickerspam") {
        Some(CommandKind::StickerSpam)
    } else if same_text(name, "sticker") {
        Some(CommandKind::Sticker)
    } else if same_text(name, "image") {
        Some(CommandKind::Image)
    } else if same_text(name, "thumb") || same_text(name, "thumbnail") {
        Some(CommandKind::Thumb)
    } else if same_text(name, "imagespam") {
        Some(CommandKind::ImageSpam)
    } else if same_text(name, "tts") || same_text(name, "audio") || same_text(name, "voice") {
        Some(CommandKind::Tts)
    } else if same_text(name, "thread") {
        Some(CommandKind::Thread)
    } else if same_text(name, "reply") || same_text(name, "replies") {
        Some(CommandKind::Reply)
    } else if same_text(name, "typing") {
        Some(CommandKind::Typing)
    } else if same_text(name, "broken-sticker") {
        Some(CommandKind::BrokenSticker)
    } else if same_text(name, "whoami") {
        Some(CommandKind::WhoAmI)
    } else if same_text(name, "bridge-id") {
        Some(CommandKind::BridgeId)
    } else if same_text(name, "invite") {
        Some(CommandKind::Invite)
    } else {
        None
    }
}

/// How a message addresses the bot.
#[derive(Clone, Copy, Debug, PartialEq, Eq, Structural)]
pub enum Addressing {
    /// The command word starts with the marker.
    Marker,
    /// The message starts with one of the bot's names, and the command
    /// word has no marker.
    Mention,
    /// Neither: the message is a command only in a direct conversation.
    Unmarked,
}

/// A message body read as a command.
pub struct ParsedBody {
    /// The command word in lower case, without the marker.
    pub name: String,
    /// The tokens after the command word, as they stand.
    pub args: Vec<String>,
    pub addressing: Addressing,
}

/// A parsed body as text.
pub struct ParsedView {
    pub name: Seq<char>,
    pub args: Seq<Seq<char>>,
    pub addressing: Addressing,
}

impl View for ParsedBody {
    type V = ParsedView;

    open spec fn view(&self) -> ParsedView {
        ParsedView { name: self.name@, args: texts(self.args@), addressing: self.addressing }
    }
}

/// Whether a word in lower case is one of the bot's names, compared
/// without regard to ASCII case.
pub open spec fn is_alias(word: Seq<char>, aliases: Seq<Seq<char>>) -> bool {
    exists|i: int| 0 <= i < aliases.len() && lower(#[trigger] aliases[i]) == word
}

/// The tokens from place `from` on.
pub open spec fn tokens_after(toks: Seq<Seq<char>>, from: int) -> Seq<Seq<char>> {
    if 0 <= from <= toks.len() {
        toks.subrange(from, toks.len() as int)
    } else {
        Seq::empty()
    }
}

/// A message body read as a command. The first token, in lower case, is
/// the command word, unless it is one of the bot's names: then the second
/// token is. A marker at the start of the command word is taken off. The
/// tokens after the command word are the arguments.
pub open spec fn parsed(body: Seq<char>, aliases: Seq<Seq<char>>) -> ParsedView {
    let toks = tokens(body);
    let first = lower(arg_at(toks, 0));
    let mention = is_alias(first, aliases);
    let word = if mention {
        lower(arg_at(toks, 1))
    } else {
        first
    };
    let args = tokens_after(
        toks,
        if mention {
            2
        } else {
            1
        },
    );
    if word.len() > 0 && word[0] == MARKER {
        ParsedView { name: word.subrange(1, word.len() as int), args, addressing: Addressing::Marker }
    } else {
        ParsedView {
            name: word,
            args,
            addressing: if mention {
                Addressing::Mention
            } else {
                Addressing::Unmarked
            },
        }
    }
}

/// Whether a message that addresses the bot in this way is a command, in
/// a room with so many joined members.
pub open spec fn qualifies(addressing: Addressing, joined_members: usize) -> bool {
    addressing != Addressing::Unmarked || joined_members == DIRECT_MEMBERS
}

/// The names that address the bot in a message: its plain name, and that
/// name with a colon after it. Without a name there are none.
pub open spec fn aliases_for(name: Option<Seq<char>>) -> Seq<Seq<char>> {
    match name {
        Some(n) => seq![n, n + ":"@],
        None => Seq::empty(),
    }
}

/// The names that address the bot, made from its plain name.
pub fn mention_aliases(name: Option<&str>) -> (r: Vec<String>)
    ensures
        texts(r@) == aliases_for(
            match name {
                Some(n) => Some(n@),
                None => None,
            },
        ),
{
    let mut r: Vec<String> = Vec::new();
    match name {
        Some(n) => {
            r.push(String::from_str(n));
            let mut with_colon = String::from_str(n);
            with_colon.append(":");
            r.push(with_colon);
            proof {
                assert(texts(r@) =~= seq![n@, n@ + ":"@]);
            }
        },
        None => {
            proof {
                assert(texts(r@) =~= Seq::<Seq<char>>::empty());
            }
        },
    }
    r
}

fn is_mention(word: &str, aliases: &Vec<String>) -> (b: bool)
    ensures
        b == is_alias(word@, texts(aliases@)),
{
    let mut i: usize = 0;
    while i < aliases.len()
        invariant
            i <= aliases@.len(),
            forall|k: int| 0 <= k < i ==> lower(#[trigger] texts(aliases@)[k]) != word@,
        decreases aliases@.len() - i,
    {
        let folded = ascii_lowercase(aliases[i].as_str());
        if same_text(folded.as_str(), word) {
            proof {
                assert(lower(texts(aliases@)[i as int]) == word@);
            }
            return true;
        }
        i += 1;
    }
    false
}

fn lowered_token(toks: &Vec<String>, k: usize) -> (s: String)
    ensures
        s@ == lower(arg_at(texts(toks@), k as int)),
{
    if k < toks.len() {
        ascii_lowercase(toks[k].as_str())
    } else {
        let s = String::new();
        proof {
            assert(lower(Seq::<char>::empty()) =~= Seq::<char>::empty());
        }
        s
    }
}

fn tokens_from_place(toks: &Vec<String>, from: usize) -> (r: Vec<String>)
    ensures
        texts(r@) == tokens_after(texts(toks@), from as int),
{
    let n = toks.len();
    let start: usize = if from <= n {
        from
    } else {
        n
    };
    let mut r: Vec<String> = Vec::new();
    let mut i: usize = start;
    while i < n
        invariant
            n == toks@.len(),
            start <= i <= n,
            texts(r@) =~= texts(toks@).subrange(start as int, i as int),
        decreases n - i,
    {
        let ghost before = r@;
        r.push(toks[i].clone());
        proof {
            assert(texts(r@) =~= texts(before).push(toks@[i as int]@));
        }
        i += 1;
    }
    r
}

/// Reads a message body as a command.
pub fn parse_body(body: &str, aliases: &Vec<String>) -> (r: ParsedBody)
    ensures
        r@ == parsed(body@, texts(aliases@)),
{
    let toks = split_whitespace(body);
    let first = lowered_token(&toks, 0);
    let mention = is_mention(first.as_str(), aliases);
    let word = if mention {
        lowered_token(&toks, 1)
    } else {
        first
    };
    let args = tokens_from_place(
        &toks,
        if mention {
            2
        } else {
            1
        },
    );
    let cs = chars_of(word.as_str());
    if cs.len() > 0 && cs[0] == MARKER {
        ParsedBody { name: string_of(&cs, 1, cs.len()), args, addressing: Addressing::Marker }
    } else {
        ParsedBody {
            name: word,
            args,
            addressing: if mention {
                Addressing::Mention
            } else {
                Addressing::Unmarked
            },
        }
    }
}

/// Reads a message body as a command, in a room with `joined_members`
/// joined members. A body that does not qualify as a command gives
/// nothing.
pub fn parse(body: &str, aliases: &Vec<String>, joined_members: usize) -> (r: Option<ParsedBody>)
    ensures
        match r {
            Some(p) => p@ == parsed(body@, texts(aliases@)) && qualifies(
                p@.addressing,
                joined_members,
            ),
            None => !qualifies(parsed(body@, texts(aliases@)).addressing, joined_members),
        },
{
    let p = parse_body(body, aliases);
    match p.addressing {
        Addressing::Unmarked => if joined_members == DIRECT_MEMBERS {
            Some(p)
        } else {
            None
        },
        _ => Some(p),
    }
}

/// A command as the router hands it to its handler.
pub struct IncomingCommand {
    pub name: String,
    pub args: Vec<String>,
    pub room_is_public: bool,
    pub sender_tier: TrustTier,
    pub sent_at_ms: u64,
}

/// A command as text.
pub struct CommandView {
    pub name: Seq<char>,
    pub args: Seq<Seq<char>>,
    pub room_is_public: bool,
    pub sender_tier: TrustTier,
    pub sent_at_ms: u64,
}

impl View for IncomingCommand {
    type V = CommandView;

    open spec fn view(&self) -> CommandView {
        CommandView {
            name: self.name@,
            args: texts(self.args@),
            room_is_public: self.room_is_public,
            sender_tier: self.sender_tier,
            sent_at_ms: self.sent_at_ms,
        }
    }
}

} // verus!
