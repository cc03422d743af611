//! The event router: which events are commands, and what each command
//! leads to.

use crate::bridge::{bridge_content, handle_bride_id, BridgeStateContent};
use crate::campaign::{canned_spam, chain_plan, handle_reply_spam, handle_spam};
use crate::campaign::{handle_sticker_spam, handle_thread_spam, limit_notice, notice_text};
use crate::campaign::{spam_plan, sticker_burst};
use crate::campaign::{SpamPlan, StickerBurst, TextBurst, TierLimits};
use crate::command::{command_kind, kind_of, parse_body, parsed};
use crate::command::{Addressing, CommandKind, CommandView, IncomingCommand, DIRECT_MEMBERS};
use crate::content::ContentTable;
use crate::handlers::{code_block, elapsed_ms, help_text, ping_html, ping_me_html, ping_plain};
use crate::handlers::{handle_event_id, handle_help, handle_invite, handle_mxc, handle_ping};
use crate::handlers::{handle_ping_me, handle_ping_room, handle_room_id, handle_sticker};
use crate::handlers::{handle_sticker_broken, handle_tts, handle_whoami, MxcPlan};
use crate::handlers::{spoken_text, sticker_for, subject_event, title_for, whoami_text};
use crate::image::{handle_image_spam, handle_image_spam_with_count, image_geometry};
use crate::image::{image_text_override, size_arg, ImagePlan, DEFAULT_IMAGE_SPAM};
use crate::message::{markdown_notice, opt_text, plain, rich};
use crate::message::{Mention, Message, MessageKind, MessageView, Sticker, StickerView};
use crate::text::{same_text, texts};
use crate::typing::{handle_typing, typing_seconds};
use crate::users::{classify, tier_of, AllowLists, Identity};
use vstd::prelude::*;

verus! {

/// An event older than the launch by more than this many milliseconds is
/// history, not a command.
pub const GRACE_MS: u64 = 10_000;

/// A room event, as the protocol client delivers it.
pub struct MessageEvent {
    pub sender: Identity,
    pub event_id: String,
    /// Whether the event is a text message.
    pub is_text: bool,
    pub body: String,
    pub sent_at_ms: u64,
    /// The event that this one replies to, if any.
    pub reply_to: Option<String>,
}

/// The room of an event.
pub struct RoomInfo {
    pub room_id: String,
    /// The bot's own identity in the room.
    pub own_id: String,
    /// Whether the bot has joined the room.
    pub joined: bool,
    /// Whether anyone may join the room, where that is known.
    pub is_public: Option<bool>,
}

/// What the router and the handlers know beside the event.
pub struct BotContext {
    pub lists: AllowLists,
    pub limits: TierLimits,
    /// The names by which a message addresses the bot.
    pub aliases: Vec<String>,
    pub bot_name: String,
    /// Milliseconds since the epoch at which the process was launched.
    pub launched_ms: u64,
    pub lines: ContentTable,
    pub stickers: ContentTable,
}

/// Why an event is not handled.
#[derive(Clone, Copy, Debug, PartialEq, Eq, Structural)]
pub enum DropReason {
    /// The bot has not joined the room.
    NotJoined,
    /// The bot sent the event itself.
    OwnMessage,
    /// The event is no text message.
    NotText,
    /// The event was sent before the grace window that ends at the launch.
    TooOld,
}

/// A room counts as public unless it is known not to be.
pub open spec fn counts_as_public(is_public: Option<bool>) -> bool {
    match is_public {
        Some(b) => b,
        None => true,
    }
}

/// Whether an event was sent before the grace window.
pub open spec fn is_stale(sent_at_ms: u64, launched_ms: u64) -> bool {
    sent_at_ms < launched_ms - GRACE_MS
}

/// Why an event is dropped before it is read, if it is.
pub open spec fn drop_reason(event: MessageEvent, room: RoomInfo, launched_ms: u64) -> Option<
    DropReason,
> {
    if !room.joined {
        Some(DropReason::NotJoined)
    } else if event.sender@ == room.own_id@ {
        Some(DropReason::OwnMessage)
    } else if !event.is_text {
        Some(DropReason::NotText)
    } else if is_stale(event.sent_at_ms, launched_ms) {
        Some(DropReason::TooOld)
    } else {
        None
    }
}

/// The command that an event carries, read from its body.
pub open spec fn command_of(event: MessageEvent, room: RoomInfo, ctx: BotContext) -> CommandView {
    let p = parsed(event.body@, texts(ctx.aliases@));
    CommandView {
        name: p.name,
        args: p.args,
        room_is_public: counts_as_public(room.is_public),
        sender_tier: tier_of(event.sender@, texts(ctx.lists.vip@), texts(ctx.lists.trusted@)),
        sent_at_ms: event.sent_at_ms,
    }
}

/// What the router makes of an event.
pub enum Routed {
    Dropped(DropReason),
    /// The event is a command: hand it to [`handle_command`].
    Dispatch(IncomingCommand),
    /// The event is a command if the room is a direct conversation: count
    /// the joined members and ask [`confirm_direct`].
    AskMembers(IncomingCommand),
}

/// Routes one event: drops it if the room is not joined, if the bot sent
/// it, if it is no text message or if it is older than the grace window;
/// else reads its body as a command.
pub fn handle_message(event: &MessageEvent, room: &RoomInfo, ctx: &BotContext) -> (r: Routed)
    ensures
        match drop_reason(*event, *room, ctx.launched_ms) {
            Some(reason) => r matches Routed::Dropped(x) && x == reason,
            None => if parsed(event.body@, texts(ctx.aliases@)).addressing == Addressing::Unmarked {
                r matches Routed::AskMembers(c) && c@ == command_of(*event, *room, *ctx)
            } else {
                r matches Routed::Dispatch(c) && c@ == command_of(*event, *room, *ctx)
            },
        },
{
    if !room.joined {
        return Routed::Dropped(DropReason::NotJoined);
    }
    if same_text(event.sender.as_str(), room.own_id.as_str()) {
        return Routed::Dropped(DropReason::OwnMessage);
    }
    if !event.is_text {
        return Routed::Dropped(DropReason::NotText);
    }
    if ctx.launched_ms >= GRACE_MS && event.sent_at_ms < ctx.launched_ms - GRACE_MS {
        return Routed::Dropped(DropReason::TooOld);
    }
    let p = parse_body(event.body.as_str(), &ctx.aliases);
    let addressing = p.addressing;
    let command = IncomingCommand {
        name: p.name,
        args: p.args,
        room_is_public: match room.is_public {
            Some(b) => b,
            None => true,
        },
        sender_tier: classify(&event.sender, &ctx.lists),
        sent_at_ms: event.sent_at_ms,
    };
    match addressing {
        Addressing::Unmarked => Routed::AskMembers(command),
        _ => Routed::Dispatch(command),
    }
}

/// Whether a room with so many joined members is a direct conversation,
/// in which an unmarked message is a command too.
pub fn confirm_direct(joined_members: usize) -> (b: bool)
    ensures
        b == (joined_members == DIRECT_MEMBERS),
{
    joined_members == DIRECT_MEMBERS
}

/// What a command leads to.
pub enum Response {
    /// Nothing: the command is unknown, or the sender may not use it.
    Ignore,
    Send(Message),
    SendSticker(Sticker),
    /// Look the event up and answer with the address of its attachment.
    LookupAttachment(String),
    /// Send the notice, if there is one, then run the burst.
    Spam { burst: TextBurst, notice: Option<Message> },
    Stickers(StickerBurst),
    /// A burst in a thread under the command.
    Thread(TextBurst),
    /// A burst in which each message replies to the one before it.
    Reply(TextBurst),
    Images(ImagePlan),
    /// Speak the text and send the recording.
    Speak(String),
    /// Show the typing indicator for so many seconds.
    Typing(u64),
    SetBridge(BridgeStateContent),
    /// Make a room with this title and invite the sender.
    CreateRoom(String),
}

/// Whether `notice` is the notice that goes before a text burst.
pub open spec fn notice_fits(burst: TextBurst, notice: Option<Message>) -> bool {
    match notice {
        Some(m) => notice_text(burst.spec) == Some(m@.body) && m@ == plain(
            MessageKind::Notice,
            m@.body,
        ),
        None => notice_text(burst.spec) is None,
    }
}

/// Whether `r` is what an image command with these arguments leads to.
pub open spec fn images_fit(
    r: Response,
    desired: usize,
    first: int,
    with_thumbnail: bool,
    cmd: CommandView,
    limits: TierLimits,
) -> bool {
    r matches Response::Images(p) && p.geometry == image_geometry(
        desired,
        cmd.args,
        first,
        cmd.sender_tier,
        cmd.room_is_public,
        limits,
        with_thumbnail,
    ) && opt_text(p.text_override) == image_text_override(cmd.args, first)
}

/// Whether `r` is what the command leads to.
pub open spec fn response_fits(
    r: Response,
    cmd: CommandView,
    event: MessageEvent,
    room: RoomInfo,
    ctx: BotContext,
    now_ms: u64,
) -> bool {
    let tier = cmd.sender_tier;
    let public = cmd.room_is_public;
    let lines = ctx.lines@.len() as usize;
    let stickers = ctx.stickers@.len() as usize;
    match kind_of(cmd.name) {
        None => r is Ignore,
        Some(CommandKind::Help) => r matches Response::Send(m) && m@ == markdown_notice(
            help_text(tier),
        ),
        Some(CommandKind::Ping) => r matches Response::Send(m) && m@ == rich(
            MessageKind::Notice,
            ping_plain(elapsed_ms(cmd.sent_at_ms, now_ms)),
            ping_html(
                event.sender@,
                room.room_id@,
                event.event_id@,
                elapsed_ms(cmd.sent_at_ms, now_ms),
            ),
            Mention::Nobody,
            None,
        ),
        Some(CommandKind::PingMe) => r matches Response::Send(m) && m@ == rich(
            MessageKind::Text,
            "Ping with mention"@,
            ping_me_html(event.sender@),
            Mention::Sender,
            None,
        ),
        Some(CommandKind::PingRoom) => r matches Response::Send(m) && m@ == (MessageView {
            mention: Mention::Room,
            ..plain(MessageKind::Text, "I was told to ping @room, everyone listen up!"@)
        }),
        Some(CommandKind::EventId) => r matches Response::Send(m) && m@ == rich(
            MessageKind::Notice,
            subject_event(event.event_id@, opt_text(event.reply_to)),
            code_block(subject_event(event.event_id@, opt_text(event.reply_to))),
            Mention::Nobody,
            Some(subject_event(event.event_id@, opt_text(event.reply_to))),
        ),
        Some(CommandKind::RoomId) => r matches Response::Send(m) && m@ == rich(
            MessageKind::Notice,
            room.room_id@,
            code_block(room.room_id@),
            Mention::Nobody,
            None,
        ),
        Some(CommandKind::Mxc) => match opt_text(event.reply_to) {
            Some(id) => r matches Response::LookupAttachment(x) && x@ == id,
            None => r matches Response::Send(m) && m@ == plain(
                MessageKind::Notice,
                "Please reply to an attachmnent message while issuing the !mxc command"@,
            ),
        },
        Some(CommandKind::Spam) => match spam_plan(
            cmd.args,
            tier,
            public,
            ctx.limits,
            lines,
            stickers,
        ) {
            SpamPlan::Stickers(b) => r matches Response::Stickers(x) && x == b,
            SpamPlan::Canned => r matches Response::Send(m) && m@ == plain(
                MessageKind::Text,
                "Here be spam"@,
            ),
            SpamPlan::Burst(b) => r matches Response::Spam { burst, notice } && burst == b
                && notice_fits(b, notice),
        },
        Some(CommandKind::StickerSpam) => r matches Response::Stickers(x) && x == sticker_burst(
            cmd.args,
            tier,
            public,
            ctx.limits,
            stickers,
        ),
        Some(CommandKind::Sticker) => r matches Response::SendSticker(s) && s@ == sticker_for(
            cmd.args,
        ),
        Some(CommandKind::BrokenSticker) => r matches Response::SendSticker(s) && s@ == (
        StickerView { body: "Broken sticker"@, url: Seq::empty() }),
        Some(CommandKind::Image) => images_fit(
            r,
            size_arg(cmd.args, 0, 1),
            1,
            false,
            cmd,
            ctx.limits,
        ),
        Some(CommandKind::ImageSpam) => images_fit(
            r,
            size_arg(cmd.args, 0, DEFAULT_IMAGE_SPAM),
            1,
            false,
            cmd,
            ctx.limits,
        ),
        Some(CommandKind::Thumb) => images_fit(r, 1, 0, true, cmd, ctx.limits),
        Some(CommandKind::Tts) => if tier.rank() >= 1 {
            r matches Response::Speak(t) && t@ == spoken_text(event.body@)
        } else {
            r is Ignore
        },
        Some(CommandKind::Thread) => match chain_plan(cmd.args, tier, public, ctx.limits, lines) {
            Some(b) => r matches Response::Thread(x) && x == b,
            None => r is Ignore,
        },
        Some(CommandKind::Reply) => match chain_plan(cmd.args, tier, public, ctx.limits, lines) {
            Some(b) => r matches Response::Reply(x) && x == b,
            None => r is Ignore,
        },
        Some(CommandKind::Typing) => match typing_seconds(cmd.args, tier, ctx.limits) {
            Some(s) => r matches Response::Typing(x) && x == s,
            None => r is Ignore,
        },
        Some(CommandKind::WhoAmI) => r matches Response::Send(m) && m@ == plain(
            MessageKind::Notice,
            whoami_text(tier),
        ),
        Some(CommandKind::BridgeId) => r matches Response::SetBridge(c) && c@ == bridge_content(
            cmd.args,
            room.own_id@,
        ),
        Some(CommandKind::Invite) => if tier.rank() >= 1 {
            r matches Response::CreateRoom(t) && exists|stamp: Seq<char>|
                t@ == title_for(cmd.args, ctx.bot_name@, stamp)
        } else {
            r is Ignore
        },
    }
}

/// The commands that answer with one message or one sticker, whoever
/// asks and wherever.
pub open spec fn is_single_shot(kind: CommandKind) -> bool {
    match kind {
        CommandKind::Ping
        | CommandKind::PingMe
        | CommandKind::PingRoom
        | CommandKind::EventId
        | CommandKind::RoomId
        | CommandKind::Mxc
        | CommandKind::WhoAmI
        | CommandKind::Help
        | CommandKind::Sticker
        | CommandKind::BrokenSticker
        | CommandKind::BridgeId => true,
        _ => false,
    }
}

/// A single-shot command is answered in a public room as it is in any
/// other: what fits the command in one kind of room fits it in the other.
pub proof fn lemma_single_shot_ignores_room(
    r: Response,
    cmd: CommandView,
    event: MessageEvent,
    room: RoomInfo,
    ctx: BotContext,
    now_ms: u64,
)
    requires
        kind_of(cmd.name) matches Some(k) && is_single_shot(k),
    ensures
        response_fits(r, cmd, event, room, ctx, now_ms) == response_fits(
            r,
            CommandView { room_is_public: !cmd.room_is_public, ..cmd },
            event,
            room,
            ctx,
            now_ms,
        ),
{
}

/// An event from before the grace window is never handed on as a command.
pub proof fn lemma_history_is_dropped(event: MessageEvent, room: RoomInfo, launched_ms: u64)
    requires
        event.sent_at_ms + GRACE_MS < launched_ms,
    ensures
        drop_reason(event, room, launched_ms) is Some,
{
}

/// Decides what a command leads to. A command word that names no command
/// leads to nothing.
pub fn handle_command(
    cmd: &IncomingCommand,
    event: &MessageEvent,
    room: &RoomInfo,
    ctx: &BotContext,
    now_ms: u64,
) -> (r: Response)
    ensures
        response_fits(r, cmd@, *event, *room, *ctx, now_ms),
{
    let tier = cmd.sender_tier;
    let public = cmd.room_is_public;
    let kind = match command_kind(cmd.name.as_str()) {
        Some(k) => k,
        None => {
            return Response::Ignore;
        },
    };
    match kind {
        CommandKind::Help => Response::Send(handle_help(tier)),
        CommandKind::Ping => Response::Send(
            handle_ping(
                event.sender.as_str(),
                room.room_id.as_str(),
                event.event_id.as_str(),
                cmd.sent_at_ms,
                now_ms,
            ),
        ),
        CommandKind::PingMe => Response::Send(handle_ping_me(event.sender.as_str())),
        CommandKind::PingRoom => Response::Send(handle_ping_room()),
        CommandKind::EventId => Response::Send(
            handle_event_id(event.event_id.as_str(), &event.reply_to),
        ),
        CommandKind::RoomId => Response::Send(handle_room_id(room.room_id.as_str())),
        CommandKind::Mxc => match handle_mxc(&event.reply_to) {
            MxcPlan::Refuse(m) => Response::Send(m),
            MxcPlan::Lookup(id) => Response::LookupAttachment(id),
        },
        CommandKind::Spam => match handle_spam(
            &cmd.args,
            tier,
            public,
            &ctx.limits,
            &ctx.lines,
            &ctx.stickers,
        ) {
            SpamPlan::Stickers(b) => Response::Stickers(b),
            SpamPlan::Canned => Response::Send(canned_spam()),
            SpamPlan::Burst(burst) => {
                let notice = limit_notice(&burst.spec);
                Response::Spam { burst, notice }
            },
        },
        CommandKind::StickerSpam => Response::Stickers(
            handle_sticker_spam(&cmd.args, tier, public, &ctx.limits, &ctx.stickers),
        ),
        CommandKind::Sticker => Response::SendSticker(handle_sticker(&cmd.args)),
        CommandKind::BrokenSticker => Response::SendSticker(handle_sticker_broken()),
        CommandKind::Image => Response::Images(
            handle_image_spam(&cmd.args, 1, tier, public, &ctx.limits),
        ),
        CommandKind::ImageSpam => Response::Images(
            handle_image_spam(&cmd.args, DEFAULT_IMAGE_SPAM, tier, public, &ctx.limits),
        ),
        CommandKind::Thumb => Response::Images(
            handle_image_spam_with_count(1, &cmd.args, false, tier, public, &ctx.limits, true),
        ),
        CommandKind::Tts => match handle_tts(event.body.as_str(), tier) {
            Some(t) => Response::Speak(t),
            None => Response::Ignore,
        },
        CommandKind::Thread => match handle_thread_spam(
            &cmd.args,
            tier,
            public,
            &ctx.limits,
            &ctx.lines,
        ) {
            Some(b) => Response::Thread(b),
            None => Response::Ignore,
        },
        CommandKind::Reply => match handle_reply_spam(
            &cmd.args,
            tier,
            public,
            &ctx.limits,
            &ctx.lines,
        ) {
            Some(b) => Response::Reply(b),
            None => Response::Ignore,
        },
        CommandKind::Typing => match handle_typing(&cmd.args, tier, &ctx.limits) {
            Some(s) => Response::Typing(s),
            None => Response::Ignore,
        },
        CommandKind::WhoAmI => Response::Send(handle_whoami(tier)),
        CommandKind::BridgeId => Response::SetBridge(
            handle_bride_id(&cmd.args, room.own_id.as_str()),
        ),
        CommandKind::Invite => match handle_invite(&cmd.args, tier, ctx.bot_name.as_str()) {
            Some(t) => Response::CreateRoom(t),
            None => Response::Ignore,
        },
    }
}

} // verus!
