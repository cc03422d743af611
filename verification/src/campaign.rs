//! The campaign scheduler: from a command's arguments, the sender's tier,
//! the room and the configured limits to the count and delay of a bounded
//! burst, and to the content of each of its items.

use crate::content::{slot, ContentTable};
use crate::message::{plain, Message, MessageKind, Sticker, StickerView};
use crate::text::{decimal, parse_u64, parse_unsigned, parse_usize, push_decimal, texts};
use crate::users::TrustTier;
use vstd::prelude::*;

verus! {

/// The configured limits.
#[derive(Clone, Copy, Debug, PartialEq, Eq, Structural)]
pub struct TierLimits {
    pub text_vip: usize,
    pub text_trusted: usize,
    pub sticker_vip: usize,
    pub sticker_trusted: usize,
    pub image_vip: usize,
    pub image_trusted: usize,
    /// The largest width and height of a generated image, in pixels.
    pub image_max_size: usize,
    /// The delay ceiling, in seconds: no delay between items is longer, and
    /// no delayed burst has more items than fit in it.
    pub delay_limit: u64,
    /// The longest time to show a typing indicator, in seconds.
    pub typing_max: u64,
}

/// The limits that hold where none are configured.
pub open spec fn default_limits() -> TierLimits {
    TierLimits {
        text_vip: 500,
        text_trusted: 100,
        sticker_vip: 500,
        sticker_trusted: 100,
        image_vip: 50,
        image_trusted: 0,
        image_max_size: 500,
        delay_limit: 20,
        typing_max: 20,
    }
}

impl TierLimits {
    /// The limits that hold where none are configured.
    pub fn defaults() -> (l: TierLimits)
        ensures
            l == default_limits(),
    {
        TierLimits {
            text_vip: 500,
            text_trusted: 100,
            sticker_vip: 500,
            sticker_trusted: 100,
            image_vip: 50,
            image_trusted: 0,
            image_max_size: 500,
            delay_limit: 20,
            typing_max: 20,
        }
    }
}

/// The command families, each with ceilings of its own.
#[derive(Clone, Copy, Debug, PartialEq, Eq, Structural)]
pub enum Family {
    Text,
    Sticker,
    Image,
}

/// The most items that a burst of a family may have: one in a public room
/// and for an Anonymous sender, else the family's limit for the tier.
pub open spec fn ceiling(
    family: Family,
    tier: TrustTier,
    room_is_public: bool,
    limits: TierLimits,
) -> usize {
    if room_is_public {
        1
    } else {
        match (tier, family) {
            (TrustTier::Anonymous, _) => 1,
            (TrustTier::Trusted, Family::Text) => limits.text_trusted,
            (TrustTier::Trusted, Family::Sticker) => limits.sticker_trusted,
            (TrustTier::Trusted, Family::Image) => limits.image_trusted,
            (TrustTier::Vip, Family::Text) => limits.text_vip,
            (TrustTier::Vip, Family::Sticker) => limits.sticker_vip,
            (TrustTier::Vip, Family::Image) => limits.image_vip,
        }
    }
}

/// The most items that a burst of the family may have.
pub fn ceiling_for(family: Family, tier: TrustTier, room_is_public: bool, limits: &TierLimits) -> (c:
    usize)
    ensures
        c == ceiling(family, tier, room_is_public, *limits),
{
    if room_is_public {
        1
    } else {
        match tier {
            TrustTier::Anonymous => 1,
            TrustTier::Trusted => match family {
                Family::Text => limits.text_trusted,
                Family::Sticker => limits.sticker_trusted,
                Family::Image => limits.image_trusted,
            },
            TrustTier::Vip => match family {
                Family::Text => limits.text_vip,
                Family::Sticker => limits.sticker_vip,
                Family::Image => limits.image_vip,
            },
        }
    }
}

/// What was asked for and what is granted.
#[derive(Clone, Copy, Debug, PartialEq, Eq, Structural)]
pub struct CampaignSpec {
    /// The count that the command gave, if it gave one.
    pub requested_count: Option<usize>,
    /// The delay that the command gave, if it gave one.
    pub requested_delay: Option<u64>,
    /// The requested count, or the default where none was given.
    pub desired_count: usize,
    pub resolved_count: usize,
    /// Seconds to sleep before each item; 0 for none.
    pub resolved_delay: u64,
    pub was_limited: bool,
}

/// The smaller of two numbers.
#[verifier::inline]
pub open spec fn least(a: int, b: int) -> int {
    if a < b {
        a
    } else {
        b
    }
}

/// The delay granted: none unless a positive delay was requested; else the
/// requested delay, at most the delay ceiling and at least one second.
#[verifier::inline]
pub open spec fn resolved_delay(requested: Option<u64>, delay_ceiling: u64) -> int {
    match requested {
        Some(d) => if d > 0 {
            let m = least(d as int, delay_ceiling as int);
            if m < 1 {
                1
            } else {
                m
            }
        } else {
            0
        },
        None => 0,
    }
}

/// The count granted: the desired count, at most the ceiling, and with a
/// delay at most as many items as fit into the delay ceiling.
#[verifier::inline]
pub open spec fn resolved_count(desired: int, ceiling: int, delay: int, delay_ceiling: int) -> int {
    let base = least(desired, ceiling);
    if delay > 0 {
        least(base, delay_ceiling / delay)
    } else {
        base
    }
}

/// The campaign for a request under a ceiling.
pub open spec fn campaign(
    requested_count: Option<usize>,
    requested_delay: Option<u64>,
    default_count: usize,
    ceiling: usize,
    delay_ceiling: u64,
) -> CampaignSpec {
    let desired = match requested_count {
        Some(c) => c,
        None => default_count,
    };
    let delay = resolved_delay(requested_delay, delay_ceiling);
    let count = resolved_count(desired as int, ceiling as int, delay, delay_ceiling as int);
    CampaignSpec {
        requested_count,
        requested_delay,
        desired_count: desired,
        resolved_count: count as usize,
        resolved_delay: delay as u64,
        was_limited: count < desired || delay > 0,
    }
}

/// Computes the campaign for a request under a ceiling.
pub fn resolve(
    requested_count: Option<usize>,
    requested_delay: Option<u64>,
    default_count: usize,
    ceiling: usize,
    delay_ceiling: u64,
) -> (r: CampaignSpec)
    ensures
        r == campaign(requested_count, requested_delay, default_count, ceiling, delay_ceiling),
{
    let desired: usize = match requested_count {
        Some(c) => c,
        None => default_count,
    };
    let mut count: usize = if desired < ceiling {
        desired
    } else {
        ceiling
    };
    let mut delay: u64 = 0;
    match requested_delay {
        Some(d) => {
            if d > 0 {
                let m: u64 = if d < delay_ceiling {
                    d
                } else {
                    delay_ceiling
                };
                delay = if m < 1 {
                    1
                } else {
                    m
                };
                let by_delay: u64 = delay_ceiling / delay;
                if by_delay < count as u64 {
                    count = by_delay as usize;
                }
            }
        },
        None => {},
    }
    CampaignSpec {
        requested_count,
        requested_delay,
        desired_count: desired,
        resolved_count: count,
        resolved_delay: delay,
        was_limited: count < desired || delay > 0,
    }
}

/// No campaign has more items than its ceiling or than were asked for, and
/// a count within the ceiling is granted as it is unless a delay was
/// granted too. This holds of the ceiling of every family, tier and room.
pub proof fn lemma_count_within_ceiling(
    requested_count: Option<usize>,
    requested_delay: Option<u64>,
    default_count: usize,
    ceiling: usize,
    delay_ceiling: u64,
)
    ensures
        ({
            let c = campaign(
                requested_count,
                requested_delay,
                default_count,
                ceiling,
                delay_ceiling,
            );
            &&& c.resolved_count <= ceiling
            &&& c.resolved_count <= c.desired_count
            &&& (c.resolved_delay == 0 && c.desired_count <= ceiling ==> c.resolved_count
                == c.desired_count)
            &&& (requested_count matches Some(n) ==> c.desired_count == n)
            &&& (requested_delay is None ==> c.resolved_delay == 0)
        }),
{
    let delay = resolved_delay(requested_delay, delay_ceiling);
    if delay > 0 {
        assert(delay_ceiling as int / delay >= 0) by (nonlinear_arith)
            requires
                delay > 0,
                delay_ceiling >= 0,
        ;
    }
}

/// For every family, tier and room: a burst of `requested` items without a
/// delay has at most as many items as the ceiling of the tier, and exactly
/// `requested` where that is within the ceiling.
pub proof fn lemma_tier_ceiling_holds(
    family: Family,
    tier: TrustTier,
    room_is_public: bool,
    limits: TierLimits,
    requested: usize,
    default_count: usize,
)
    ensures
        ({
            let top = ceiling(family, tier, room_is_public, limits);
            let c = campaign(Some(requested), None, default_count, top, limits.delay_limit);
            &&& c.resolved_count <= top
            &&& (requested <= top ==> c.resolved_count == requested)
            &&& (requested == 0 ==> c.resolved_count == 0 && !c.was_limited)
        }),
{
}

/// With a positive requested delay and a delay ceiling of at least one
/// second, the granted delay is within the ceiling, and so is the whole
/// burst: count times delay is at most the ceiling.
pub proof fn lemma_delay_within_ceiling(
    requested_count: Option<usize>,
    requested_delay: u64,
    default_count: usize,
    ceiling: usize,
    delay_ceiling: u64,
)
    requires
        requested_delay > 0,
        delay_ceiling >= 1,
    ensures
        ({
            let c = campaign(
                requested_count,
                Some(requested_delay),
                default_count,
                ceiling,
                delay_ceiling,
            );
            &&& 1 <= c.resolved_delay <= delay_ceiling
            &&& c.resolved_delay <= requested_delay
            &&& c.resolved_count * c.resolved_delay <= delay_ceiling
            &&& c.was_limited
        }),
{
    let delay = resolved_delay(Some(requested_delay), delay_ceiling);
    let desired: int = match requested_count {
        Some(c) => c as int,
        None => default_count as int,
    };
    let count = resolved_count(desired, ceiling as int, delay, delay_ceiling as int);
    let q = delay_ceiling as int / delay;
    assert(q * delay <= delay_ceiling && q >= 0) by (nonlinear_arith)
        requires
            delay > 0,
            delay_ceiling >= 0,
            q == delay_ceiling as int / delay,
    ;
    assert(count * delay <= q * delay) by (nonlinear_arith)
        requires
            count <= q,
            delay > 0,
    ;
}

/// The argument at place `k`, or the empty text where there is none.
pub open spec fn arg_at(args: Seq<Seq<char>>, k: int) -> Seq<char> {
    if 0 <= k < args.len() {
        args[k]
    } else {
        Seq::empty()
    }
}

/// The count that argument `k` gives. An argument that is missing, is no
/// unsigned decimal number or does not fit gives none.
pub open spec fn count_arg(args: Seq<Seq<char>>, k: int) -> Option<usize> {
    match parse_unsigned(arg_at(args, k), usize::MAX as nat) {
        Some(v) => Some(v as usize),
        None => None,
    }
}

/// The number of seconds that argument `k` gives, if any.
pub open spec fn seconds_arg(args: Seq<Seq<char>>, k: int) -> Option<u64> {
    match parse_unsigned(arg_at(args, k), u64::MAX as nat) {
        Some(v) => Some(v as u64),
        None => None,
    }
}

/// The count that argument `k` gives, if it gives one.
pub fn read_count(args: &Vec<String>, k: usize) -> (r: Option<usize>)
    ensures
        r == count_arg(texts(args@), k as int),
{
    if k < args.len() {
        parse_usize(args[k].as_str())
    } else {
        None
    }
}

/// The number of seconds that argument `k` gives, if it gives one.
pub fn read_seconds(args: &Vec<String>, k: usize) -> (r: Option<u64>)
    ensures
        r == seconds_arg(texts(args@), k as int),
{
    if k < args.len() {
        parse_u64(args[k].as_str())
    } else {
        None
    }
}

/// A burst of text messages.
#[derive(Clone, Copy, Debug, PartialEq, Eq, Structural)]
pub struct TextBurst {
    pub spec: CampaignSpec,
    /// Whether each message starts with its number: so where the command
    /// gave a count.
    pub numbered: bool,
}

/// A burst of stickers.
#[derive(Clone, Copy, Debug, PartialEq, Eq, Structural)]
pub struct StickerBurst {
    pub spec: CampaignSpec,
    /// Whether a closing notice follows the last sticker: so where the burst
    /// is longer than the sticker table.
    pub say_done: bool,
}

/// What a text-burst command leads to.
#[derive(Clone, Copy, Debug, PartialEq, Eq, Structural)]
pub enum SpamPlan {
    /// In a public room, a sticker burst of at most one sticker.
    Stickers(StickerBurst),
    /// For an Anonymous sender, one canned message.
    Canned,
    Burst(TextBurst),
}

/// The sticker burst for a command: the count is the first argument, or
/// the length of the sticker table.
pub open spec fn sticker_burst(
    args: Seq<Seq<char>>,
    tier: TrustTier,
    room_is_public: bool,
    limits: TierLimits,
    sticker_len: usize,
) -> StickerBurst {
    let spec = campaign(
        count_arg(args, 0),
        None,
        sticker_len,
        ceiling(Family::Sticker, tier, room_is_public, limits),
        limits.delay_limit,
    );
    StickerBurst { spec, say_done: spec.resolved_count > sticker_len }
}

/// The text burst for a command: the count is the first argument, or
/// `default_count`; the delay is the second argument where `with_delay`.
pub open spec fn text_burst(
    args: Seq<Seq<char>>,
    tier: TrustTier,
    limits: TierLimits,
    default_count: usize,
    with_delay: bool,
) -> TextBurst {
    TextBurst {
        spec: campaign(
            count_arg(args, 0),
            if with_delay {
                seconds_arg(args, 1)
            } else {
                None
            },
            default_count,
            ceiling(Family::Text, tier, false, limits),
            limits.delay_limit,
        ),
        numbered: count_arg(args, 0) is Some,
    }
}

/// What `spam [count [delay]]` leads to.
pub open spec fn spam_plan(
    args: Seq<Seq<char>>,
    tier: TrustTier,
    room_is_public: bool,
    limits: TierLimits,
    text_len: usize,
    sticker_len: usize,
) -> SpamPlan {
    if room_is_public {
        SpamPlan::Stickers(sticker_burst(args, tier, room_is_public, limits, sticker_len))
    } else if tier == TrustTier::Anonymous {
        SpamPlan::Canned
    } else {
        SpamPlan::Burst(text_burst(args, tier, limits, text_len, true))
    }
}

/// What `thread [count]` and `reply [count]` lead to: a text burst for a
/// sender who is Trusted or more in a room that is not public, and nothing
/// otherwise.
pub open spec fn chain_plan(
    args: Seq<Seq<char>>,
    tier: TrustTier,
    room_is_public: bool,
    limits: TierLimits,
    default_count: usize,
) -> Option<TextBurst> {
    if room_is_public || tier == TrustTier::Anonymous {
        None
    } else {
        Some(text_burst(args, tier, limits, default_count, false))
    }
}

/// Plans `stickerspam [count]`.
pub fn handle_sticker_spam(
    args: &Vec<String>,
    tier: TrustTier,
    room_is_public: bool,
    limits: &TierLimits,
    stickers: &ContentTable,
) -> (r: StickerBurst)
    ensures
        r == sticker_burst(texts(args@), tier, room_is_public, *limits, stickers@.len() as usize),
{
    let spec = resolve(
        read_count(args, 0),
        None,
        stickers.len(),
        ceiling_for(Family::Sticker, tier, room_is_public, limits),
        limits.delay_limit,
    );
    StickerBurst { spec, say_done: spec.resolved_count > stickers.len() }
}

/// Plans `spam [count [delay]]`.
pub fn handle_spam(
    args: &Vec<String>,
    tier: TrustTier,
    room_is_public: bool,
    limits: &TierLimits,
    lines: &ContentTable,
    stickers: &ContentTable,
) -> (r: SpamPlan)
    ensures
        r == spam_plan(
            texts(args@),
            tier,
            room_is_public,
            *limits,
            lines@.len() as usize,
            stickers@.len() as usize,
        ),
{
    if room_is_public {
        SpamPlan::Stickers(handle_sticker_spam(args, tier, room_is_public, limits, stickers))
    } else {
        match tier {
            TrustTier::Anonymous => SpamPlan::Canned,
            _ => {
                let count = read_count(args, 0);
                let spec = resolve(
                    count,
                    read_seconds(args, 1),
                    lines.len(),
                    ceiling_for(Family::Text, tier, false, limits),
                    limits.delay_limit,
                );
                SpamPlan::Burst(TextBurst { spec, numbered: count.is_some() })
            },
        }
    }
}

fn plan_chain(
    args: &Vec<String>,
    tier: TrustTier,
    room_is_public: bool,
    limits: &TierLimits,
    default_count: usize,
) -> (r: Option<TextBurst>)
    ensures
        r == chain_plan(texts(args@), tier, room_is_public, *limits, default_count),
{
    if room_is_public {
        None
    } else {
        match tier {
            TrustTier::Anonymous => None,
            _ => {
                let count = read_count(args, 0);
                let spec = resolve(
                    count,
                    None,
                    default_count,
                    ceiling_for(Family::Text, tier, false, limits),
                    limits.delay_limit,
                );
                Some(TextBurst { spec, numbered: count.is_some() })
            },
        }
    }
}

/// Plans `thread [count]`: without a count, one message for each line of
/// the text table.
pub fn handle_thread_spam(
    args: &Vec<String>,
    tier: TrustTier,
    room_is_public: bool,
    limits: &TierLimits,
    lines: &ContentTable,
) -> (r: Option<TextBurst>)
    ensures
        r == chain_plan(texts(args@), tier, room_is_public, *limits, lines@.len() as usize),
{
    plan_chain(args, tier, room_is_public, limits, lines.len())
}

/// Plans `reply [count]`: without a count, one reply for each line of the
/// text table.
pub fn handle_reply_spam(
    args: &Vec<String>,
    tier: TrustTier,
    room_is_public: bool,
    limits: &TierLimits,
    lines: &ContentTable,
) -> (r: Option<TextBurst>)
    ensures
        r == chain_plan(texts(args@), tier, room_is_public, *limits, lines@.len() as usize),
{
    plan_chain(args, tier, room_is_public, limits, lines.len())
}

/// In a public room a text-burst command sends at most one item, whatever
/// the count and the tier; it sends exactly one unless the count asked for
/// is zero.
pub proof fn lemma_public_room_suppression(
    args: Seq<Seq<char>>,
    tier: TrustTier,
    limits: TierLimits,
    text_len: usize,
    sticker_len: usize,
)
    requires
        sticker_len > 0,
    ensures
        spam_plan(args, tier, true, limits, text_len, sticker_len) matches SpamPlan::Stickers(b)
            && b.spec.resolved_count <= 1 && (count_arg(args, 0) != Some(0usize)
            ==> b.spec.resolved_count == 1) && b.spec.resolved_delay == 0 && !b.say_done,
        chain_plan(args, tier, true, limits, text_len) is None,
{
}

/// The canned reply to a text-burst command of an Anonymous sender.
pub fn canned_spam() -> (m: Message)
    ensures
        m@ == plain(MessageKind::Text, "Here be spam"@),
{
    Message::text_plain(String::from_str("Here be spam"))
}

/// The closing notice of a long sticker burst.
pub fn done_notice() -> (m: Message)
    ensures
        m@ == plain(MessageKind::Notice, "Done!"@),
{
    Message::notice_plain(String::from_str("Done!"))
}

/// The text of the notice that precedes a limited or delayed text burst;
/// there is none where the campaign was not limited.
pub open spec fn notice_text(spec: CampaignSpec) -> Option<Seq<char>> {
    let count = decimal(spec.resolved_count as nat);
    let delay = decimal(spec.resolved_delay as nat);
    if !spec.was_limited {
        None
    } else if spec.resolved_count == spec.desired_count {
        Some("I will spam "@ + count + " messages delayed by "@ + delay + "s"@)
    } else if spec.resolved_delay > 0 {
        Some("Limit notice: I will spam "@ + count + " messages delayed by "@ + delay + "s"@)
    } else {
        Some("Limit notice: I will spam "@ + count + " messages"@)
    }
}

/// The notice to send before a text burst starts, if the campaign was
/// limited or is delayed.
pub fn limit_notice(spec: &CampaignSpec) -> (r: Option<Message>)
    ensures
        match r {
            Some(m) => notice_text(*spec) == Some(m@.body) && m@ == plain(
                MessageKind::Notice,
                m@.body,
            ),
            None => notice_text(*spec) is None,
        },
{
    if !spec.was_limited {
        return None;
    }
    let mut s = if spec.resolved_count == spec.desired_count {
        String::from_str("I will spam ")
    } else {
        String::from_str("Limit notice: I will spam ")
    };
    push_decimal(&mut s, spec.resolved_count as u64);
    s.append(" messages");
    if spec.resolved_count == spec.desired_count || spec.resolved_delay > 0 {
        s.append(" delayed by ");
        push_decimal(&mut s, spec.resolved_delay);
        s.append("s");
    }
    proof {
        let count = decimal(spec.resolved_count as nat);
        let delay = decimal(spec.resolved_delay as nat);
        let head = if spec.resolved_count == spec.desired_count {
            "I will spam "@
        } else {
            "Limit notice: I will spam "@
        };
        assert(head + count + " messages"@ + " delayed by "@ + delay + "s"@ =~= head + count
            + " messages delayed by "@ + delay + "s"@) by {
            reveal_strlit(" messages");
            reveal_strlit(" delayed by ");
            reveal_strlit(" messages delayed by ");
        }
    }
    Some(Message::notice_plain(s))
}

/// The text of item `index` of a text burst: the line of the table for the
/// item, after the item's number (counted from 1) where items are numbered.
pub open spec fn text_item_spec(table: Seq<Seq<char>>, index: nat, numbered: bool) -> Seq<char> {
    let line = table[slot(index, table.len())];
    if numbered {
        decimal(index + 1) + " - "@ + line
    } else {
        line
    }
}

/// The text of item `index` of a text burst.
pub fn text_item(table: &ContentTable, index: usize, numbered: bool) -> (s: String)
    requires
        index < u64::MAX,
    ensures
        s@ == text_item_spec(table@, index as nat, numbered),
{
    let line = table.select(index);
    let mut s = String::new();
    if numbered {
        push_decimal(&mut s, index as u64 + 1);
        s.append(" - ");
    }
    s.append(line);
    proof {
        let e = Seq::<char>::empty();
        assert(e + line@ =~= line@);
        assert(e + decimal((index + 1) as nat) =~= decimal((index + 1) as nat));
    }
    s
}

/// Item `index` of a sticker burst: the sticker of the table for the item,
/// captioned with the text line for the item.
pub fn sticker_item(lines: &ContentTable, stickers: &ContentTable, index: usize) -> (s: Sticker)
    ensures
        lines@.len() > 0,
        stickers@.len() > 0,
        s@ == (StickerView {
            body: lines@[slot(index as nat, lines@.len())],
            url: stickers@[slot(index as nat, stickers@.len())],
        }),
{
    Sticker {
        body: String::from_str(lines.select(index)),
        url: String::from_str(stickers.select(index)),
    }
}

/// What the task that runs a burst does next.
#[derive(Clone, Copy, Debug, PartialEq, Eq, Structural)]
pub enum BurstStep {
    /// Sleep for `sleep_secs` seconds, then deliver item `index`.
    Deliver { index: usize, sleep_secs: u64 },
    /// The burst is over: every item was delivered, or a delivery failed.
    Finished,
}

/// The next step of a burst of which `delivered` items went out: the items
/// go out in order, and a failed delivery ends the burst.
pub open spec fn next_step(spec: CampaignSpec, delivered: usize, last_failed: bool) -> BurstStep {
    if last_failed || delivered >= spec.resolved_count {
        BurstStep::Finished
    } else {
        BurstStep::Deliver { index: delivered, sleep_secs: spec.resolved_delay }
    }
}

/// The next step of a burst of which `delivered` items went out.
pub fn burst_step(spec: &CampaignSpec, delivered: usize, last_failed: bool) -> (r: BurstStep)
    ensures
        r == next_step(*spec, delivered, last_failed),
{
    if last_failed || delivered >= spec.resolved_count {
        BurstStep::Finished
    } else {
        BurstStep::Deliver { index: delivered, sleep_secs: spec.resolved_delay }
    }
}

/// How far a burst has come: the accumulator that the task which runs
/// the burst carries from one delivery to the next.
pub struct BurstProgress {
    /// The number of items delivered so far.
    pub delivered: usize,
    /// Whether a delivery failed.
    pub failed: bool,
    /// The event that the next item replies to, if any.
    pub target: Option<String>,
    /// Whether each item replies to the item before it.
    pub chained: bool,
}

impl BurstProgress {
    /// The progress of a burst that has not sent anything yet.
    pub fn start(target: Option<String>, chained: bool) -> (p: BurstProgress)
        ensures
            p.delivered == 0,
            !p.failed,
            p.target == target,
            p.chained == chained,
    {
        BurstProgress { delivered: 0, failed: false, target, chained }
    }

    /// What to do next.
    pub fn next(&self, spec: &CampaignSpec) -> (r: BurstStep)
        ensures
            r == next_step(*spec, self.delivered, self.failed),
    {
        burst_step(spec, self.delivered, self.failed)
    }

    /// Takes note of how the delivery of the next item ended: with the id
    /// of the event that was sent, or with a failure. After a success one
    /// more item is delivered, and in a chain the next item replies to the
    /// event just sent. After a failure the burst is over, and the target
    /// stays where it was.
    pub fn record(&mut self, delivery: Option<String>)
        requires
            old(self).delivered < usize::MAX,
        ensures
            final(self).chained == old(self).chained,
            match delivery {
                Some(id) => {
                    &&& final(self).delivered == old(self).delivered + 1
                    &&& final(self).failed == old(self).failed
                    &&& final(self).target == if old(self).chained {
                        Some(id)
                    } else {
                        old(self).target
                    }
                },
                None => {
                    &&& final(self).delivered == old(self).delivered
                    &&& final(self).failed
                    &&& final(self).target == old(self).target
                },
            },
    {
        match delivery {
            Some(id) => {
                self.delivered = self.delivered + 1;
                if self.chained {
                    self.target = Some(id);
                }
            },
            None => {
                self.failed = true;
            },
        }
    }
}

/// Whether a closing notice follows a sticker burst: so where the burst
/// is longer than the sticker table, no delivery failed and every sticker
/// went out.
pub open spec fn closing_due(burst: StickerBurst, progress: BurstProgress) -> bool {
    burst.say_done && !progress.failed && progress.delivered >= burst.spec.resolved_count
}

/// The notice that closes a sticker burst, if one is due. After a failed
/// delivery nothing more is sent, the notice included.
pub fn closing_notice(burst: &StickerBurst, progress: &BurstProgress) -> (r: Option<Message>)
    ensures
        match r {
            Some(m) => closing_due(*burst, *progress) && m@ == plain(
                MessageKind::Notice,
                "Done!"@,
            ),
            None => !closing_due(*burst, *progress),
        },
{
    if burst.say_done && !progress.failed && progress.delivered >= burst.spec.resolved_count {
        Some(done_notice())
    } else {
        None
    }
}

} // verus!
