use wip_bot::bridge::{bridge_outcome_message, handle_bride_id, FAKE_BRIDGE_KEY};
use wip_bot::campaign::TierLimits;
use wip_bot::command::{
    command_kind, mention_aliases, parse, parse_body, Addressing, CommandKind,
};
use wip_bot::content::{default_sticker_table, default_text_table};
use wip_bot::handlers::{
    handle_event_id, handle_help, handle_invite, handle_mxc, handle_ping, handle_ping_me,
    handle_ping_room, handle_room_id, handle_sticker, handle_sticker_broken, handle_tts,
    handle_whoami, invite_failed_message, invite_success_message, invite_welcome_message,
    mxc_outcome_message, room_title, MxcOutcome, MxcPlan, HELP, TRUSTED_HELP,
};
use wip_bot::message::{Format, Mention, MessageKind};
use wip_bot::router::{
    confirm_direct, handle_command, handle_message, BotContext, DropReason, MessageEvent,
    Response, RoomInfo, Routed,
};
use wip_bot::users::{AllowLists, Identity, TrustTier};

fn args(words: &[&str]) -> Vec<String> {
    words.iter().map(|w| w.to_string()).collect()
}

fn context() -> BotContext {
    BotContext {
        lists: AllowLists {
            vip: vec!["@vip:example.org".to_string()],
            trusted: vec!["example.org".to_string()],
        },
        limits: TierLimits::defaults(),
        aliases: mention_aliases(Some("WipBot")),
        bot_name: "WipBot".to_string(),
        launched_ms: 1_000_000,
        lines: default_text_table(),
        stickers: default_sticker_table(),
    }
}

fn room(public: bool) -> RoomInfo {
    RoomInfo {
        room_id: "!room:example.org".to_string(),
        own_id: "@bot:example.org".to_string(),
        joined: true,
        is_public: Some(public),
    }
}

fn event(sender: &str, body: &str, sent_at_ms: u64) -> MessageEvent {
    MessageEvent {
        sender: Identity::new(sender).unwrap(),
        event_id: "$event".to_string(),
        is_text: true,
        body: body.to_string(),
        sent_at_ms,
        reply_to: None,
    }
}

fn respond(sender: &str, body: &str, public: bool) -> Response {
    let ctx = context();
    let room = room(public);
    let event = event(sender, body, 1_000_500);
    match handle_message(&event, &room, &ctx) {
        Routed::Dispatch(cmd) => handle_command(&cmd, &event, &room, &ctx, 1_000_700),
        _ => panic!("the message is a marked command"),
    }
}

#[test]
fn aliases_are_name_and_name_with_colon() {
    assert_eq!(mention_aliases(Some("Bot")), vec!["Bot", "Bot:"]);
    assert!(mention_aliases(None).is_empty());
}

#[test]
fn marker_command_is_parsed() {
    let p = parse_body("!SPAM 30 2", &mention_aliases(Some("Bot")));
    assert_eq!(p.name, "spam");
    assert_eq!(p.args, vec!["30", "2"]);
    assert_eq!(p.addressing, Addressing::Marker);
}

#[test]
fn mention_takes_the_second_token_as_command() {
    let aliases = mention_aliases(Some("WipBot"));
    let p = parse_body("wipbot: Sticker MXC://a/B Cap", &aliases);
    assert_eq!(p.name, "sticker");
    assert_eq!(p.args, vec!["MXC://a/B", "Cap"]);
    assert_eq!(p.addressing, Addressing::Mention);
    let p = parse_body("WIPBOT !ping", &aliases);
    assert_eq!(p.name, "ping");
    assert!(p.args.is_empty());
    assert_eq!(p.addressing, Addressing::Marker);
    let p = parse_body("WipBot", &aliases);
    assert_eq!(p.name, "");
    assert!(p.args.is_empty());
    assert_eq!(p.addressing, Addressing::Mention);
}

#[test]
fn unmarked_message_is_a_command_only_in_a_direct_room() {
    let aliases = mention_aliases(Some("Bot"));
    assert!(parse("hello there", &aliases, 3).is_none());
    assert!(parse("hello there", &aliases, 1).is_none());
    let p = parse("Ping now", &aliases, 2).unwrap();
    assert_eq!(p.name, "ping");
    assert_eq!(p.args, vec!["now"]);
    assert_eq!(p.addressing, Addressing::Unmarked);
    assert!(parse("!ping", &aliases, 7).is_some());
    assert!(parse("bot: ping", &aliases, 7).is_some());
    assert!(parse("", &aliases, 7).is_none());
    assert!(confirm_direct(2));
    assert!(!confirm_direct(3));
}

#[test]
fn only_the_first_marker_is_taken_off() {
    let p = parse_body("!!ping", &Vec::new());
    assert_eq!(p.name, "!ping");
    assert_eq!(p.addressing, Addressing::Marker);
    assert_eq!(command_kind(&p.name), None);
}

#[test]
fn command_words_and_their_other_names() {
    assert_eq!(command_kind("ping"), Some(CommandKind::Ping));
    assert_eq!(command_kind("whoami"), Some(CommandKind::WhoAmI));
    assert_eq!(command_kind("spam"), Some(CommandKind::Spam));
    assert_eq!(command_kind("stickerspam"), Some(CommandKind::StickerSpam));
    assert_eq!(command_kind("sticker"), Some(CommandKind::Sticker));
    assert_eq!(command_kind("broken-sticker"), Some(CommandKind::BrokenSticker));
    assert_eq!(command_kind("image"), Some(CommandKind::Image));
    assert_eq!(command_kind("imagespam"), Some(CommandKind::ImageSpam));
    assert_eq!(command_kind("thumb"), Some(CommandKind::Thumb));
    assert_eq!(command_kind("thumbnail"), Some(CommandKind::Thumb));
    assert_eq!(command_kind("thread"), Some(CommandKind::Thread));
    assert_eq!(command_kind("reply"), Some(CommandKind::Reply));
    assert_eq!(command_kind("replies"), Some(CommandKind::Reply));
    assert_eq!(command_kind("typing"), Some(CommandKind::Typing));
    assert_eq!(command_kind("bridge-id"), Some(CommandKind::BridgeId));
    assert_eq!(command_kind("invite"), Some(CommandKind::Invite));
    assert_eq!(command_kind("help"), Some(CommandKind::Help));
    assert_eq!(command_kind("pingme"), Some(CommandKind::PingMe));
    assert_eq!(command_kind("pingroom"), Some(CommandKind::PingRoom));
    assert_eq!(command_kind("event"), Some(CommandKind::EventId));
    assert_eq!(command_kind("eventid"), Some(CommandKind::EventId));
    assert_eq!(command_kind("id"), Some(CommandKind::EventId));
    assert_eq!(command_kind("room"), Some(CommandKind::RoomId));
    assert_eq!(command_kind("roomid"), Some(CommandKind::RoomId));
    assert_eq!(command_kind("mxc"), Some(CommandKind::Mxc));
    assert_eq!(command_kind("tts"), Some(CommandKind::Tts));
    assert_eq!(command_kind("audio"), Some(CommandKind::Tts));
    assert_eq!(command_kind("voice"), Some(CommandKind::Tts));
    assert_eq!(command_kind(""), None);
    assert_eq!(command_kind("Ping"), None);
    assert_eq!(command_kind("dance"), None);
}

#[test]
fn scenario_command_from_before_the_launch_is_dropped() {
    let ctx = context();
    let e = event("@alice:example.org", "!ping", ctx.launched_ms - 20_000);
    match handle_message(&e, &room(false), &ctx) {
        Routed::Dropped(reason) => assert_eq!(reason, DropReason::TooOld),
        _ => panic!("the event is history"),
    }
}

#[test]
fn grace_window_is_ten_seconds() {
    let ctx = context();
    let e = event("@alice:example.org", "!ping", ctx.launched_ms - 10_000);
    assert!(matches!(handle_message(&e, &room(false), &ctx), Routed::Dispatch(_)));
    let e = event("@alice:example.org", "!ping", ctx.launched_ms - 10_001);
    assert!(matches!(
        handle_message(&e, &room(false), &ctx),
        Routed::Dropped(DropReason::TooOld)
    ));
    let mut early = context();
    early.launched_ms = 5_000;
    let e = event("@alice:example.org", "!ping", 0);
    assert!(matches!(handle_message(&e, &room(false), &early), Routed::Dispatch(_)));
}

#[test]
fn router_drops_what_is_no_live_text_of_someone_else() {
    let ctx = context();
    let mut r = room(false);
    r.joined = false;
    let e = event("@alice:example.org", "!ping", 1_000_500);
    assert!(matches!(handle_message(&e, &r, &ctx), Routed::Dropped(DropReason::NotJoined)));
    let own = event("@bot:example.org", "!ping", 1_000_500);
    assert!(matches!(
        handle_message(&own, &room(false), &ctx),
        Routed::Dropped(DropReason::OwnMessage)
    ));
    let mut image = event("@alice:example.org", "!ping", 1_000_500);
    image.is_text = false;
    assert!(matches!(
        handle_message(&image, &room(false), &ctx),
        Routed::Dropped(DropReason::NotText)
    ));
}

#[test]
fn router_builds_the_command() {
    let ctx = context();
    let e = event("@vip:example.org", "!Spam 30 2", 1_000_500);
    let mut r = room(false);
    r.is_public = None;
    match handle_message(&e, &r, &ctx) {
        Routed::Dispatch(cmd) => {
            assert_eq!(cmd.name, "spam");
            assert_eq!(cmd.args, vec!["30", "2"]);
            assert!(cmd.room_is_public);
            assert_eq!(cmd.sender_tier, TrustTier::Vip);
            assert_eq!(cmd.sent_at_ms, 1_000_500);
        }
        _ => panic!("the message is a marked command"),
    }
    let e = event("@carol:elsewhere.net", "ping", 1_000_500);
    match handle_message(&e, &room(false), &ctx) {
        Routed::AskMembers(cmd) => {
            assert_eq!(cmd.name, "ping");
            assert_eq!(cmd.sender_tier, TrustTier::Anonymous);
            assert!(!cmd.room_is_public);
        }
        _ => panic!("the message is unmarked"),
    }
}

#[test]
fn unknown_command_is_ignored() {
    assert!(matches!(respond("@alice:example.org", "!dance", false), Response::Ignore));
    assert!(matches!(respond("@alice:example.org", "!", false), Response::Ignore));
}

#[test]
fn end_to_end_anonymous_spam_is_canned() {
    match respond("@carol:elsewhere.net", "!spam 50", false) {
        Response::Send(m) => {
            assert_eq!(m.body, "Here be spam");
            assert_eq!(m.kind, MessageKind::Text);
        }
        _ => panic!("one canned message was expected"),
    }
}

#[test]
fn end_to_end_trusted_spam_with_delay() {
    match respond("@alice:example.org", "!spam 30 2", false) {
        Response::Spam { burst, notice } => {
            assert_eq!(burst.spec.resolved_delay, 2);
            assert_eq!(burst.spec.resolved_count, 10);
            assert_eq!(
                notice.unwrap().body,
                "Limit notice: I will spam 10 messages delayed by 2s"
            );
        }
        _ => panic!("a burst was expected"),
    }
}

#[test]
fn end_to_end_spam_in_public_room_is_one_sticker() {
    match respond("@vip:example.org", "!spam 400", true) {
        Response::Stickers(b) => assert_eq!(b.spec.resolved_count, 1),
        _ => panic!("stickers were expected"),
    }
    assert!(matches!(respond("@vip:example.org", "!thread 4", true), Response::Ignore));
    assert!(matches!(respond("@vip:example.org", "!reply 4", true), Response::Ignore));
}

#[test]
fn end_to_end_single_shots_work_in_public_rooms() {
    match respond("@carol:elsewhere.net", "!whoami", true) {
        Response::Send(m) => assert_eq!(m.body, "You are nobody"),
        _ => panic!("a message was expected"),
    }
    match respond("@carol:elsewhere.net", "!ping", true) {
        Response::Send(m) => assert_eq!(m.body, "I'm here (ping took 200 ms to arrive)"),
        _ => panic!("a message was expected"),
    }
    match respond("@carol:elsewhere.net", "!room", true) {
        Response::Send(m) => assert_eq!(m.body, "!room:example.org"),
        _ => panic!("a message was expected"),
    }
}

#[test]
fn end_to_end_other_commands() {
    assert!(matches!(respond("@alice:example.org", "!thread 3", false), Response::Thread(_)));
    match respond("@alice:example.org", "!replies", false) {
        Response::Reply(b) => assert_eq!(b.spec.resolved_count, default_text_table().len()),
        _ => panic!("replies were expected"),
    }
    assert!(matches!(respond("@carol:elsewhere.net", "!typing", false), Response::Ignore));
    match respond("@alice:example.org", "!typing 90", false) {
        Response::Typing(s) => assert_eq!(s, 20),
        _ => panic!("typing was expected"),
    }
    match respond("@alice:example.org", "!typing", false) {
        Response::Typing(s) => assert_eq!(s, 5),
        _ => panic!("typing was expected"),
    }
    match respond("@alice:example.org", "!tts Hello  World", false) {
        Response::Speak(t) => assert_eq!(t, "Hello  World"),
        _ => panic!("speech was expected"),
    }
    assert!(matches!(respond("@carol:elsewhere.net", "!tts hi", false), Response::Ignore));
    match respond("@alice:example.org", "!bridge-id Signal", false) {
        Response::SetBridge(c) => {
            assert_eq!(c.bridgebot.as_deref(), Some("@bot:example.org"));
            assert_eq!(c.protocol.unwrap().id, "Signal");
        }
        _ => panic!("bridge content was expected"),
    }
    match respond("@alice:example.org", "!invite Lounge", false) {
        Response::CreateRoom(t) => assert_eq!(t, "Lounge"),
        _ => panic!("a room was expected"),
    }
    match respond("@alice:example.org", "!invite", false) {
        Response::CreateRoom(t) => {
            assert!(t.starts_with("New WipBot room "));
            assert!(t.len() > "New WipBot room ".len());
        }
        _ => panic!("a room was expected"),
    }
    assert!(matches!(respond("@carol:elsewhere.net", "!invite", false), Response::Ignore));
    match respond("@alice:example.org", "!mxc", false) {
        Response::Send(m) => assert_eq!(
            m.body,
            "Please reply to an attachmnent message while issuing the !mxc command"
        ),
        _ => panic!("a message was expected"),
    }
    match respond("@alice:example.org", "!stickerspam 3", false) {
        Response::Stickers(b) => {
            assert_eq!(b.spec.resolved_count, 3);
            assert!(b.say_done);
        }
        _ => panic!("stickers were expected"),
    }
    match respond("@alice:example.org", "!sticker", false) {
        Response::SendSticker(s) => assert_eq!(s.body, "Sticker"),
        _ => panic!("a sticker was expected"),
    }
    match respond("@alice:example.org", "!broken-sticker", false) {
        Response::SendSticker(s) => assert_eq!(s.url, ""),
        _ => panic!("a sticker was expected"),
    }
    match respond("@vip:example.org", "!imagespam", false) {
        Response::Images(p) => assert_eq!(p.geometry.spec.resolved_count, 3),
        _ => panic!("images were expected"),
    }
    match respond("@vip:example.org", "!image", false) {
        Response::Images(p) => assert_eq!(p.geometry.spec.resolved_count, 1),
        _ => panic!("images were expected"),
    }
    match respond("@vip:example.org", "!thumb 80", false) {
        Response::Images(p) => {
            assert!(p.geometry.with_thumbnail);
            assert_eq!(p.geometry.width, 80);
        }
        _ => panic!("images were expected"),
    }
    match respond("@alice:example.org", "!help", false) {
        Response::Send(m) => assert!(m.body.ends_with(TRUSTED_HELP)),
        _ => panic!("help was expected"),
    }
    match respond("@alice:example.org", "!pingme", false) {
        Response::Send(m) => assert_eq!(m.mention, Mention::Sender),
        _ => panic!("a message was expected"),
    }
    match respond("@alice:example.org", "!pingroom", false) {
        Response::Send(m) => assert_eq!(m.mention, Mention::Room),
        _ => panic!("a message was expected"),
    }
    match respond("@alice:example.org", "!event", false) {
        Response::Send(m) => assert_eq!(m.body, "$event"),
        _ => panic!("a message was expected"),
    }
}

#[test]
fn help_depends_on_the_tier() {
    let anonymous = handle_help(TrustTier::Anonymous);
    assert_eq!(anonymous.body, HELP);
    assert_eq!(anonymous.kind, MessageKind::Notice);
    assert_eq!(anonymous.format, Format::Markdown);
    let trusted = handle_help(TrustTier::Trusted);
    assert_eq!(trusted.body, format!("{}\n{}", HELP, TRUSTED_HELP));
    assert_eq!(handle_help(TrustTier::Vip).body, trusted.body);
    assert!(HELP.starts_with("- `!help` - Print this help\n- `!ping` - Pong\n"));
}

#[test]
fn ping_says_how_long_the_command_took() {
    let m = handle_ping("@a:b.c", "!r:b.c", "$e", 1_000, 1_250);
    assert_eq!(m.kind, MessageKind::Notice);
    assert_eq!(m.format, Format::Html);
    assert_eq!(m.body, "I'm here (ping took 250 ms to arrive)");
    assert_eq!(
        m.html.unwrap(),
        "<a href='https://matrix.to/#/@a:b.c'>@a:b.c</a>: Pong! (<a href='https://matrix.to/#/!r:b.c/$e'>ping</a> took 250 ms to arrive)"
    );
    let m = handle_ping("@a:b.c", "!r:b.c", "$e", 2_000, 1_000);
    assert_eq!(m.body, "I'm here (ping took 0 ms to arrive)");
}

#[test]
fn ping_me_and_ping_room() {
    let m = handle_ping_me("@a:b.c");
    assert_eq!(m.kind, MessageKind::Text);
    assert_eq!(m.body, "Ping with mention");
    assert_eq!(m.html.unwrap(), "<a href='https://matrix.to/#/@a:b.c'>@a:b.c</a>: Hi there");
    assert_eq!(m.mention, Mention::Sender);
    let m = handle_ping_room();
    assert_eq!(m.body, "I was told to ping @room, everyone listen up!");
    assert_eq!(m.mention, Mention::Room);
    assert_eq!(m.format, Format::Plain);
}

#[test]
fn event_and_room_ids() {
    let m = handle_event_id("$cmd", &None);
    assert_eq!(m.body, "$cmd");
    assert_eq!(m.html.unwrap(), "<pre><code>$cmd</code></pre>");
    assert_eq!(m.reply_to.unwrap(), "$cmd");
    let m = handle_event_id("$cmd", &Some("$other".to_string()));
    assert_eq!(m.body, "$other");
    assert_eq!(m.reply_to.unwrap(), "$other");
    let m = handle_room_id("!r:b.c");
    assert_eq!(m.body, "!r:b.c");
    assert_eq!(m.html.unwrap(), "<pre><code>!r:b.c</code></pre>");
    assert!(m.reply_to.is_none());
}

#[test]
fn mxc_needs_a_reply() {
    assert!(matches!(handle_mxc(&None), MxcPlan::Refuse(_)));
    match handle_mxc(&Some("$att".to_string())) {
        MxcPlan::Lookup(id) => assert_eq!(id, "$att"),
        _ => panic!("a look-up was expected"),
    }
    let m = mxc_outcome_message("$att", &MxcOutcome::Found("mxc://a/b".to_string()));
    assert_eq!(m.body, "$att");
    assert_eq!(m.html.unwrap(), "<pre><code>mxc://a/b</code></pre>");
    assert_eq!(m.reply_to.unwrap(), "$att");
    assert_eq!(
        mxc_outcome_message("$att", &MxcOutcome::LookupFailed).body,
        "Failed to look-up replied-to event"
    );
    assert_eq!(
        mxc_outcome_message("$att", &MxcOutcome::NoAttachment).body,
        "Replied-to message does not appear to be a known attachment type"
    );
}

#[test]
fn whoami_by_tier() {
    assert_eq!(handle_whoami(TrustTier::Vip).body, "You are VIP");
    assert_eq!(handle_whoami(TrustTier::Trusted).body, "You look trustworty");
    assert_eq!(handle_whoami(TrustTier::Anonymous).body, "You are nobody");
}

#[test]
fn sticker_arguments_and_defaults() {
    let s = handle_sticker(&args(&[]));
    assert_eq!(s.url, "mxc://spiritcroc.de/mkJFKqrNzBGBcILPTIPlTPOV");
    assert_eq!(s.body, "Sticker");
    let s = handle_sticker(&args(&["mxc://a/b"]));
    assert_eq!(s.url, "mxc://a/b");
    assert_eq!(s.body, "Sticker");
    let s = handle_sticker(&args(&["mxc://a/b", "Hi", "more"]));
    assert_eq!(s.body, "Hi");
    let s = handle_sticker_broken();
    assert_eq!(s.body, "Broken sticker");
    assert_eq!(s.url, "");
}

#[test]
fn spoken_text_follows_the_first_white_space() {
    assert_eq!(handle_tts("!tts hello world", TrustTier::Trusted).unwrap(), "hello world");
    assert_eq!(handle_tts("!tts", TrustTier::Vip).unwrap(), "Nope");
    assert_eq!(handle_tts("!tts ", TrustTier::Vip).unwrap(), "");
    assert_eq!(handle_tts("!tts\t a", TrustTier::Vip).unwrap(), " a");
    assert!(handle_tts("!tts hello", TrustTier::Anonymous).is_none());
}

#[test]
fn invite_titles_and_messages() {
    assert_eq!(room_title(&args(&["Den", "x"]), "Bot", "now"), "Den");
    assert_eq!(room_title(&args(&[]), "Bot", "2026-01-01 00:00:00 UTC"),
        "New Bot room 2026-01-01 00:00:00 UTC");
    assert!(handle_invite(&args(&[]), TrustTier::Anonymous, "Bot").is_none());
    assert_eq!(handle_invite(&args(&["Den"]), TrustTier::Trusted, "Bot").unwrap(), "Den");
    let t = handle_invite(&args(&[]), TrustTier::Vip, "Bot").unwrap();
    assert!(t.starts_with("New Bot room 2"));
    assert!(t.ends_with("UTC"));
    assert_eq!(
        invite_success_message("!new:b.c", "b.c").body,
        "Invited to [`!new:b.c`](https://matrix.to/#/!new:b.c?via=b.c)"
    );
    assert_eq!(
        invite_welcome_message("!r:b.c", "$e").body,
        "Invited from [`!r:b.c`](https://matrix.to/#/!r:b.c/$e)"
    );
    assert_eq!(invite_failed_message().body, "Failed");
    assert_eq!(invite_failed_message().kind, MessageKind::Text);
}

#[test]
fn bridge_content_names_the_bot_and_the_protocol() {
    let c = handle_bride_id(&args(&["Signal", "x"]), "@bot:b.c");
    assert_eq!(c.bridgebot.as_deref(), Some("@bot:b.c"));
    assert_eq!(c.creator.as_deref(), Some("@bot:b.c"));
    let p = c.protocol.unwrap();
    assert_eq!(p.id, "Signal");
    assert_eq!(p.displayname, "Signal");
    let c = handle_bride_id(&args(&[]), "@bot:b.c");
    assert!(c.protocol.is_none());
    assert_eq!(c.clone().creator.as_deref(), Some("@bot:b.c"));
    assert_eq!(FAKE_BRIDGE_KEY, "de.spiritcroc.wipbot");
    let m = bridge_outcome_message(true);
    assert_eq!(m.body, "Bridge content updated");
    assert_eq!(m.format, Format::Markdown);
    let m = bridge_outcome_message(false);
    assert_eq!(m.body, "Failed to set bridge-id");
    assert_eq!(m.kind, MessageKind::Text);
}
