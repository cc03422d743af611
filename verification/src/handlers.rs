//! The single-shot commands: what each of them answers.

use crate::message::{markdown_notice, opt_text, plain, rich};
use crate::message::{Mention, Message, MessageKind, Sticker, StickerView};
use crate::text::{chars_of, decimal, is_space, is_white_space, push_decimal, string_of, texts};
use crate::users::TrustTier;
use vstd::prelude::*;

verus! {

/// The help for everyone.
pub const HELP: &'static str =
    "- `!help` - Print this help\n- `!ping` - Pong\n- `!pingme` - Mentions you intentionally\n- `!event` - Show event ID of you command message or the message it replies to\n- `!room` - Show current room ID\n- `!mxc` - Show mxc of the attachment you replied to\n- `!whoami` - View your permission level\n- `!sticker [mxc [body]]` - Send a sticker\n- `!broken-sticker` - Send a sticker with empty url\n- `!bridge-id [id]` - Set or clear a `m.bridge` state event with a given bridge_id";

/// The help for senders who are Trusted or more.
pub const TRUSTED_HELP: &'static str =
    "- `!spam [count [delay_seconds]]` - Send lots of text messasges\n- `!stickerspam [count]` - Send lots of stickers\n- `!image [count [width [height [info_width info_height]]]]` - Send images that you have never seen before\n- `!imagespam [count [width [height]]]` - Like `!image` but three of them by default\n- `!thumb [width [height]]` - Like `!image` but one, with an added thumbnail\n- `!tts <text>` - Send audio message for provided text using TTS\n- `!audio <text>` - Send audio message for provided text using TTS\n- `!thread [count]` - Send lots of text messages in a thread\n- `!reply [count]` - Send lots of text messages as replies\n- `!invite [title]` - Create a new room and invite you to it\n- `!pingroom` - Ping the room\n- `!typing [seconds]` - Send typing indicator";

/// The sticker that `sticker` sends where the command names none.
pub const DEFAULT_STICKER: &'static str = "mxc://spiritcroc.de/mkJFKqrNzBGBcILPTIPlTPOV";

/// The link prefix for identities, rooms and events.
pub const LINK: &'static str = "https://matrix.to/#/";

/// The help for a sender: the common commands, and for a sender who is
/// Trusted or more those for trusted senders too.
pub open spec fn help_text(tier: TrustTier) -> Seq<char> {
    if tier.rank() >= 1 {
        HELP@ + "\n"@ + TRUSTED_HELP@
    } else {
        HELP@
    }
}

/// Answers `help`.
pub fn handle_help(tier: TrustTier) -> (m: Message)
    ensures
        m@ == markdown_notice(help_text(tier)),
{
    let mut s = String::from_str(HELP);
    if tier.at_least_trusted() {
        s.append("\n");
        s.append(TRUSTED_HELP);
    }
    Message::notice_markdown(s)
}

/// Milliseconds from sending to now; none where the clocks disagree and
/// the event claims to be sent later than now.
pub open spec fn elapsed_ms(sent_at_ms: u64, now_ms: u64) -> nat {
    if now_ms >= sent_at_ms {
        (now_ms - sent_at_ms) as nat
    } else {
        0
    }
}

/// The plain text of the answer to `ping`.
pub open spec fn ping_plain(elapsed: nat) -> Seq<char> {
    "I'm here (ping took "@ + decimal(elapsed) + " ms to arrive)"@
}

/// The HTML of the answer to `ping`: links to the sender and to the command.
pub open spec fn ping_html(
    sender: Seq<char>,
    room_id: Seq<char>,
    event_id: Seq<char>,
    elapsed: nat,
) -> Seq<char> {
    "<a href='"@ + LINK@ + sender + "'>"@ + sender + "</a>: Pong! (<a href='"@ + LINK@ + room_id
        + "/"@ + event_id + "'>ping</a> took "@ + decimal(elapsed) + " ms to arrive)"@
}

/// Answers `ping`: a notice that says how long the command took to arrive.
pub fn handle_ping(sender: &str, room_id: &str, event_id: &str, sent_at_ms: u64, now_ms: u64) -> (m:
    Message)
    ensures
        m@ == rich(
            MessageKind::Notice,
            ping_plain(elapsed_ms(sent_at_ms, now_ms)),
            ping_html(sender@, room_id@, event_id@, elapsed_ms(sent_at_ms, now_ms)),
            Mention::Nobody,
            None,
        ),
{
    let elapsed: u64 = if now_ms >= sent_at_ms {
        now_ms - sent_at_ms
    } else {
        0
    };
    let mut body = String::from_str("I'm here (ping took ");
    push_decimal(&mut body, elapsed);
    body.append(" ms to arrive)");
    let mut html = String::from_str("<a href='");
    html.append(LINK);
    html.append(sender);
    html.append("'>");
    html.append(sender);
    html.append("</a>: Pong! (<a href='");
    html.append(LINK);
    html.append(room_id);
    html.append("/");
    html.append(event_id);
    html.append("'>ping</a> took ");
    push_decimal(&mut html, elapsed);
    html.append(" ms to arrive)");
    Message::html(MessageKind::Notice, body, html, Mention::Nobody, None)
}

/// The HTML of the answer to `pingme`: a link to the sender.
pub open spec fn ping_me_html(sender: Seq<char>) -> Seq<char> {
    "<a href='"@ + LINK@ + sender + "'>"@ + sender + "</a>: Hi there"@
}

/// Answers `pingme`: a message that mentions the sender.
pub fn handle_ping_me(sender: &str) -> (m: Message)
    ensures
        m@ == rich(
            MessageKind::Text,
            "Ping with mention"@,
            ping_me_html(sender@),
            Mention::Sender,
            None,
        ),
{
    let mut html = String::from_str("<a href='");
    html.append(LINK);
    html.append(sender);
    html.append("'>");
    html.append(sender);
    html.append("</a>: Hi there");
    Message::html(
        MessageKind::Text,
        String::from_str("Ping with mention"),
        html,
        Mention::Sender,
        None,
    )
}

/// Answers `pingroom`: a message that mentions the whole room.
pub fn handle_ping_room() -> (m: Message)
    ensures
        m@ == (crate::message::MessageView {
            mention: Mention::Room,
            ..plain(MessageKind::Text, "I was told to ping @room, everyone listen up!"@)
        }),
{
    let mut m = Message::text_plain(
        String::from_str("I was told to ping @room, everyone listen up!"),
    );
    m.mention = Mention::Room;
    m
}

/// A text as preformatted code.
pub open spec fn code_block(text: Seq<char>) -> Seq<char> {
    "<pre><code>"@ + text + "</code></pre>"@
}

fn code_html(text: &str) -> (s: String)
    ensures
        s@ == code_block(text@),
{
    let mut s = String::from_str("<pre><code>");
    s.append(text);
    s.append("</code></pre>");
    s
}

/// The event that `event` is about: the one that the command replies to,
/// or else the command itself.
pub open spec fn subject_event(event_id: Seq<char>, reply_to: Option<Seq<char>>) -> Seq<char> {
    match reply_to {
        Some(id) => id,
        None => event_id,
    }
}

/// Answers `event`: the id of the subject event, in a reply to that event.
pub fn handle_event_id(event_id: &str, reply_to: &Option<String>) -> (m: Message)
    ensures
        m@ == rich(
            MessageKind::Notice,
            subject_event(event_id@, opt_text(*reply_to)),
            code_block(subject_event(event_id@, opt_text(*reply_to))),
            Mention::Nobody,
            Some(subject_event(event_id@, opt_text(*reply_to))),
        ),
{
    let id: &str = match reply_to {
        Some(r) => r.as_str(),
        None => event_id,
    };
    Message::html(
        MessageKind::Notice,
        String::from_str(id),
        code_html(id),
        Mention::Nobody,
        Some(String::from_str(id)),
    )
}

/// Answers `room`: the id of the room.
pub fn handle_room_id(room_id: &str) -> (m: Message)
    ensures
        m@ == rich(MessageKind::Notice, room_id@, code_block(room_id@), Mention::Nobody, None),
{
    Message::html(
        MessageKind::Notice,
        String::from_str(room_id),
        code_html(room_id),
        Mention::Nobody,
        None,
    )
}

/// What `mxc` leads to at once.
pub enum MxcPlan {
    /// The command replies to nothing: this notice says so.
    Refuse(Message),
    /// Look up the event with this id, then answer by
    /// [`mxc_outcome_message`].
    Lookup(String),
}

/// Plans `mxc`, which asks for the media address of the attachment that
/// the command replies to.
pub fn handle_mxc(reply_to: &Option<String>) -> (r: MxcPlan)
    ensures
        match r {
            MxcPlan::Refuse(m) => reply_to.is_none() && m@ == plain(
                MessageKind::Notice,
                "Please reply to an attachmnent message while issuing the !mxc command"@,
            ),
            MxcPlan::Lookup(id) => opt_text(*reply_to) == Some(id@),
        },
{
    match reply_to {
        Some(id) => MxcPlan::Lookup(id.clone()),
        None => MxcPlan::Refuse(
            Message::notice_plain(
                String::from_str(
                    "Please reply to an attachmnent message while issuing the !mxc command",
                ),
            ),
        ),
    }
}

/// How the look-up of the replied-to event ended.
pub enum MxcOutcome {
    /// The event could not be fetched.
    LookupFailed,
    /// The event carries no attachment of a known kind.
    NoAttachment,
    /// The media address of the event's attachment.
    Found(String),
}

/// What to answer to `mxc` once the look-up is over.
pub fn mxc_outcome_message(event_id: &str, outcome: &MxcOutcome) -> (m: Message)
    ensures
        m@ == match *outcome {
            MxcOutcome::LookupFailed => plain(
                MessageKind::Notice,
                "Failed to look-up replied-to event"@,
            ),
            MxcOutcome::NoAttachment => plain(
                MessageKind::Notice,
                "Replied-to message does not appear to be a known attachment type"@,
            ),
            MxcOutcome::Found(uri) => rich(
                MessageKind::Notice,
                event_id@,
                code_block(uri@),
                Mention::Nobody,
                Some(event_id@),
            ),
        },
{
    match outcome {
        MxcOutcome::LookupFailed => Message::notice_plain(
            String::from_str("Failed to look-up replied-to event"),
        ),
        MxcOutcome::NoAttachment => Message::notice_plain(
            String::from_str("Replied-to message does not appear to be a known attachment type"),
        ),
        MxcOutcome::Found(uri) => Message::html(
            MessageKind::Notice,
            String::from_str(event_id),
            code_html(uri.as_str()),
            Mention::Nobody,
            Some(String::from_str(event_id)),
        ),
    }
}

/// What `whoami` says to a sender of each tier.
pub open spec fn whoami_text(tier: TrustTier) -> Seq<char> {
    match tier {
        TrustTier::Vip => "You are VIP"@,
        TrustTier::Trusted => "You look trustworty"@,
        TrustTier::Anonymous => "You are nobody"@,
    }
}

/// Answers `whoami`.
pub fn handle_whoami(tier: TrustTier) -> (m: Message)
    ensures
        m@ == plain(MessageKind::Notice, whoami_text(tier)),
{
    let text = match tier {
        TrustTier::Vip => "You are VIP",
        TrustTier::Trusted => "You look trustworty",
        TrustTier::Anonymous => "You are nobody",
    };
    Message::notice_plain(String::from_str(text))
}

/// The sticker for `sticker [address [caption]]`.
pub open spec fn sticker_for(args: Seq<Seq<char>>) -> StickerView {
    StickerView {
        body: if args.len() > 1 {
            args[1]
        } else {
            "Sticker"@
        },
        url: if args.len() > 0 {
            args[0]
        } else {
            DEFAULT_STICKER@
        },
    }
}

/// Answers `sticker [address [caption]]`.
pub fn handle_sticker(args: &Vec<String>) -> (s: Sticker)
    ensures
        s@ == sticker_for(texts(args@)),
{
    let url = if args.len() > 0 {
        args[0].clone()
    } else {
        String::from_str(DEFAULT_STICKER)
    };
    let body = if args.len() > 1 {
        args[1].clone()
    } else {
        String::from_str("Sticker")
    };
    Sticker { body, url }
}

/// Answers `broken-sticker`: a sticker without an image address.
pub fn handle_sticker_broken() -> (s: Sticker)
    ensures
        s@ == (StickerView { body: "Broken sticker"@, url: Seq::empty() }),
{
    Sticker { body: String::from_str("Broken sticker"), url: String::new() }
}

/// The position of the first white space of `s` at or after `i`, or the
/// length of `s` where there is none.
pub open spec fn space_index(s: Seq<char>, i: int) -> int
    decreases s.len() - i,
{
    if i < 0 || i >= s.len() {
        s.len() as int
    } else if is_white_space(s[i]) {
        i
    } else {
        space_index(s, i + 1)
    }
}

/// The text to speak for a message body: what follows the first white
/// space, as it stands; `Nope` where the body holds no white space.
pub open spec fn spoken_text(body: Seq<char>) -> Seq<char> {
    let k = space_index(body, 0);
    if k < body.len() {
        body.subrange(k + 1, body.len() as int)
    } else {
        "Nope"@
    }
}

/// Plans `tts <text>`: the text to speak, for a sender who is Trusted or
/// more, and nothing for anyone else.
pub fn handle_tts(body: &str, tier: TrustTier) -> (r: Option<String>)
    ensures
        match r {
            Some(t) => tier.rank() >= 1 && t@ == spoken_text(body@),
            None => tier.rank() == 0,
        },
{
    if !tier.at_least_trusted() {
        return None;
    }
    let cs = chars_of(body);
    let n = cs.len();
    let mut i: usize = 0;
    while i < n && !is_space(cs[i])
        invariant
            cs@ == body@,
            n == cs@.len(),
            i <= n,
            space_index(body@, 0) == space_index(body@, i as int),
        decreases n - i,
    {
        i += 1;
    }
    if i < n {
        Some(string_of(&cs, i + 1, n))
    } else {
        Some(String::from_str("Nope"))
    }
}

/// The title of a room made by `invite` without a title.
pub open spec fn default_title(bot_name: Seq<char>, stamp: Seq<char>) -> Seq<char> {
    "New "@ + bot_name + " room "@ + stamp
}

/// The title for `invite [title]`: the first argument, or the default
/// title with the time stamp.
pub open spec fn title_for(args: Seq<Seq<char>>, bot_name: Seq<char>, stamp: Seq<char>) -> Seq<
    char,
> {
    if args.len() > 0 {
        args[0]
    } else {
        default_title(bot_name, stamp)
    }
}

/// The title of the room that `invite [title]` makes, given the text of
/// the current time.
pub fn room_title(args: &Vec<String>, bot_name: &str, stamp: &str) -> (t: String)
    ensures
        t@ == title_for(texts(args@), bot_name@, stamp@),
{
    if args.len() > 0 {
        args[0].clone()
    } else {
        let mut t = String::from_str("New ");
        t.append(bot_name);
        t.append(" room ");
        t.append(stamp);
        t
    }
}

/// `chrono::Utc::now`, written out by its `Display` form: the current date
/// and time. Nothing is claimed of the text.
#[verifier::external_body]
fn utc_now_text() -> String {
    chrono::Utc::now().to_string()
}

/// Plans `invite [title]`: the title of the room to make, for a sender who
/// is Trusted or more, and nothing for anyone else. The default title ends
/// with the current time.
pub fn handle_invite(args: &Vec<String>, tier: TrustTier, bot_name: &str) -> (r: Option<String>)
    ensures
        match r {
            Some(t) => tier.rank() >= 1 && exists|stamp: Seq<char>|
                t@ == title_for(texts(args@), bot_name@, stamp),
            None => tier.rank() == 0,
        },
{
    if !tier.at_least_trusted() {
        return None;
    }
    let stamp = utc_now_text();
    let t = room_title(args, bot_name, stamp.as_str());
    proof {
        assert(t@ == title_for(texts(args@), bot_name@, stamp@));
    }
    Some(t)
}

/// The Markdown that links to the new room.
pub open spec fn invite_success_text(new_room_id: Seq<char>, server: Seq<char>) -> Seq<char> {
    "Invited to [`"@ + new_room_id + "`]("@ + LINK@ + new_room_id + "?via="@ + server + ")"@
}

/// The Markdown that links back to the command.
pub open spec fn invite_welcome_text(room_id: Seq<char>, event_id: Seq<char>) -> Seq<char> {
    "Invited from [`"@ + room_id + "`]("@ + LINK@ + room_id + "/"@ + event_id + ")"@
}

/// What to answer once the new room exists: a link to it.
pub fn invite_success_message(new_room_id: &str, server: &str) -> (m: Message)
    ensures
        m@ == markdown_notice(invite_success_text(new_room_id@, server@)),
{
    let mut s = String::from_str("Invited to [`");
    s.append(new_room_id);
    s.append("`](");
    s.append(LINK);
    s.append(new_room_id);
    s.append("?via=");
    s.append(server);
    s.append(")");
    Message::notice_markdown(s)
}

/// What to say in the new room: a link back to the command.
pub fn invite_welcome_message(room_id: &str, event_id: &str) -> (m: Message)
    ensures
        m@ == markdown_notice(invite_welcome_text(room_id@, event_id@)),
{
    let mut s = String::from_str("Invited from [`");
    s.append(room_id);
    s.append("`](");
    s.append(LINK);
    s.append(room_id);
    s.append("/");
    s.append(event_id);
    s.append(")");
    Message::notice_markdown(s)
}

/// What to answer where the room could not be made.
pub fn invite_failed_message() -> (m: Message)
    ensures
        m@ == plain(MessageKind::Text, "Failed"@),
{
    Message::text_plain(String::from_str("Failed"))
}

} // verus!
