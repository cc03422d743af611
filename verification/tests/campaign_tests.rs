use wip_bot::campaign::{
    burst_step, canned_spam, ceiling_for, closing_notice, done_notice, handle_reply_spam,
    handle_spam,
    handle_sticker_spam, handle_thread_spam, limit_notice, read_count, read_seconds, resolve,
    sticker_item, text_item, BurstProgress, BurstStep, Family, SpamPlan, TierLimits,
};
use wip_bot::content::{default_sticker_table, default_text_table, ContentTable};
use wip_bot::message::{Format, MessageKind};
use wip_bot::users::TrustTier;

fn args(words: &[&str]) -> Vec<String> {
    words.iter().map(|w| w.to_string()).collect()
}

fn table(entries: &[&str]) -> ContentTable {
    ContentTable::new(args(entries)).unwrap()
}

fn limits() -> TierLimits {
    TierLimits::defaults()
}

#[test]
fn default_limits_are_the_documented_ones() {
    let l = TierLimits::defaults();
    assert_eq!(l.text_vip, 500);
    assert_eq!(l.text_trusted, 100);
    assert_eq!(l.sticker_vip, 500);
    assert_eq!(l.sticker_trusted, 100);
    assert_eq!(l.image_vip, 50);
    assert_eq!(l.image_trusted, 0);
    assert_eq!(l.image_max_size, 500);
    assert_eq!(l.delay_limit, 20);
    assert_eq!(l.typing_max, 20);
}

#[test]
fn ceilings_by_tier_family_and_room() {
    let l = limits();
    assert_eq!(ceiling_for(Family::Text, TrustTier::Vip, false, &l), 500);
    assert_eq!(ceiling_for(Family::Text, TrustTier::Trusted, false, &l), 100);
    assert_eq!(ceiling_for(Family::Text, TrustTier::Anonymous, false, &l), 1);
    assert_eq!(ceiling_for(Family::Sticker, TrustTier::Vip, false, &l), 500);
    assert_eq!(ceiling_for(Family::Image, TrustTier::Vip, false, &l), 50);
    assert_eq!(ceiling_for(Family::Image, TrustTier::Trusted, false, &l), 0);
    assert_eq!(ceiling_for(Family::Text, TrustTier::Vip, true, &l), 1);
    assert_eq!(ceiling_for(Family::Sticker, TrustTier::Trusted, true, &l), 1);
    assert_eq!(ceiling_for(Family::Image, TrustTier::Anonymous, true, &l), 1);
}

#[test]
fn count_within_ceiling_is_granted() {
    for c in [0usize, 1, 7, 99, 100] {
        let s = resolve(Some(c), None, 5, 100, 20);
        assert_eq!(s.resolved_count, c);
        assert_eq!(s.resolved_delay, 0);
        assert!(!s.was_limited);
    }
}

#[test]
fn count_over_ceiling_is_clamped() {
    let s = resolve(Some(101), None, 5, 100, 20);
    assert_eq!(s.resolved_count, 100);
    assert!(s.was_limited);
    let s = resolve(Some(usize::MAX), None, 5, 500, 20);
    assert_eq!(s.resolved_count, 500);
    assert!(s.was_limited);
}

#[test]
fn missing_count_defaults_to_table_length() {
    let s = resolve(None, None, 6, 100, 20);
    assert_eq!(s.requested_count, None);
    assert_eq!(s.desired_count, 6);
    assert_eq!(s.resolved_count, 6);
    assert!(!s.was_limited);
}

#[test]
fn zero_count_is_a_no_op_without_notice() {
    let s = resolve(Some(0), None, 6, 100, 20);
    assert_eq!(s.resolved_count, 0);
    assert!(!s.was_limited);
    assert!(limit_notice(&s).is_none());
    assert_eq!(burst_step(&s, 0, false), BurstStep::Finished);
}

#[test]
fn delay_is_clamped_and_bounds_the_count() {
    let s = resolve(Some(30), Some(2), 6, 100, 20);
    assert_eq!(s.resolved_delay, 2);
    assert_eq!(s.resolved_count, 10);
    assert!(s.was_limited);
    let s = resolve(Some(30), Some(50), 6, 100, 20);
    assert_eq!(s.resolved_delay, 20);
    assert_eq!(s.resolved_count, 1);
    let s = resolve(Some(3), Some(7), 6, 100, 20);
    assert_eq!(s.resolved_delay, 7);
    assert_eq!(s.resolved_count, 2);
    let s = resolve(Some(3), Some(1), 6, 100, 20);
    assert_eq!(s.resolved_delay, 1);
    assert_eq!(s.resolved_count, 3);
    assert!(s.was_limited);
}

#[test]
fn burst_never_runs_longer_than_the_delay_ceiling() {
    for ceiling in [1u64, 2, 5, 20, 33] {
        for d in 1u64..40 {
            for c in [0usize, 1, 2, 10, 1000] {
                let s = resolve(Some(c), Some(d), 6, 500, ceiling);
                assert!(s.resolved_delay <= ceiling);
                assert!(s.resolved_delay >= 1);
                assert!(s.resolved_count as u64 * s.resolved_delay <= ceiling);
                assert!(s.resolved_count <= c);
            }
        }
    }
}

#[test]
fn delay_of_zero_is_no_delay() {
    let s = resolve(Some(3), Some(0), 6, 100, 20);
    assert_eq!(s.resolved_delay, 0);
    assert_eq!(s.resolved_count, 3);
    assert!(!s.was_limited);
}

#[test]
fn delay_ceiling_of_zero_still_delays_one_second() {
    let s = resolve(Some(3), Some(5), 6, 100, 0);
    assert_eq!(s.resolved_delay, 1);
    assert_eq!(s.resolved_count, 0);
    assert!(s.was_limited);
}

#[test]
fn arguments_that_are_no_numbers_count_as_absent() {
    let a = args(&["-5", "soon"]);
    assert_eq!(read_count(&a, 0), None);
    assert_eq!(read_seconds(&a, 1), None);
    assert_eq!(read_count(&a, 2), None);
    let a = args(&["12", "3"]);
    assert_eq!(read_count(&a, 0), Some(12));
    assert_eq!(read_seconds(&a, 1), Some(3));
}

#[test]
fn scenario_anonymous_spam_in_private_room_is_one_canned_message() {
    let plan = handle_spam(
        &args(&["50"]),
        TrustTier::Anonymous,
        false,
        &limits(),
        &default_text_table(),
        &default_sticker_table(),
    );
    assert_eq!(plan, SpamPlan::Canned);
    let m = canned_spam();
    assert_eq!(m.body, "Here be spam");
    assert_eq!(m.kind, MessageKind::Text);
    assert_eq!(m.format, Format::Plain);
}

#[test]
fn scenario_trusted_spam_thirty_with_delay_two() {
    let plan = handle_spam(
        &args(&["30", "2"]),
        TrustTier::Trusted,
        false,
        &limits(),
        &default_text_table(),
        &default_sticker_table(),
    );
    let burst = match plan {
        SpamPlan::Burst(b) => b,
        _ => panic!("a burst was expected"),
    };
    assert_eq!(burst.spec.requested_count, Some(30));
    assert_eq!(burst.spec.requested_delay, Some(2));
    assert_eq!(burst.spec.resolved_delay, 2);
    assert_eq!(burst.spec.resolved_count, 10);
    assert!(burst.spec.was_limited);
    assert!(burst.numbered);
    let notice = limit_notice(&burst.spec).unwrap();
    assert_eq!(notice.body, "Limit notice: I will spam 10 messages delayed by 2s");
    assert_eq!(notice.kind, MessageKind::Notice);
    let mut delivered = 0;
    let mut slept = 0;
    loop {
        match burst_step(&burst.spec, delivered, false) {
            BurstStep::Deliver { index, sleep_secs } => {
                assert_eq!(index, delivered);
                slept += sleep_secs;
                delivered += 1;
            }
            BurstStep::Finished => break,
        }
    }
    assert_eq!(delivered, 10);
    assert_eq!(slept, 20);
}

#[test]
fn vip_gets_the_vip_ceiling() {
    let plan = handle_spam(
        &args(&["9999"]),
        TrustTier::Vip,
        false,
        &limits(),
        &default_text_table(),
        &default_sticker_table(),
    );
    match plan {
        SpamPlan::Burst(b) => {
            assert_eq!(b.spec.resolved_count, 500);
            assert_eq!(
                limit_notice(&b.spec).unwrap().body,
                "Limit notice: I will spam 500 messages"
            );
        }
        _ => panic!("a burst was expected"),
    }
}

#[test]
fn delayed_but_unlimited_burst_gets_a_plain_notice() {
    let s = resolve(Some(3), Some(2), 6, 100, 20);
    assert_eq!(s.resolved_count, 3);
    assert_eq!(limit_notice(&s).unwrap().body, "I will spam 3 messages delayed by 2s");
}

#[test]
fn unlimited_burst_gets_no_notice() {
    let s = resolve(None, None, 6, 100, 20);
    assert!(limit_notice(&s).is_none());
}

#[test]
fn spam_without_count_is_unnumbered_and_as_long_as_the_table() {
    let lines = table(&["a", "b", "c"]);
    let plan =
        handle_spam(&args(&[]), TrustTier::Trusted, false, &limits(), &lines, &table(&["s"]));
    match plan {
        SpamPlan::Burst(b) => {
            assert!(!b.numbered);
            assert_eq!(b.spec.resolved_count, 3);
            assert!(!b.spec.was_limited);
        }
        _ => panic!("a burst was expected"),
    }
}

#[test]
fn public_room_turns_spam_into_one_sticker() {
    for tier in [TrustTier::Anonymous, TrustTier::Trusted, TrustTier::Vip] {
        for count in ["1", "50", "100000", "x"] {
            let plan = handle_spam(
                &args(&[count, "3"]),
                tier,
                true,
                &limits(),
                &default_text_table(),
                &default_sticker_table(),
            );
            match plan {
                SpamPlan::Stickers(b) => {
                    assert_eq!(b.spec.resolved_count, 1);
                    assert_eq!(b.spec.resolved_delay, 0);
                    assert!(!b.say_done);
                }
                _ => panic!("stickers were expected"),
            }
        }
    }
}

#[test]
fn public_room_spam_of_zero_sends_nothing() {
    let plan = handle_spam(
        &args(&["0"]),
        TrustTier::Vip,
        true,
        &limits(),
        &default_text_table(),
        &default_sticker_table(),
    );
    match plan {
        SpamPlan::Stickers(b) => assert_eq!(b.spec.resolved_count, 0),
        _ => panic!("stickers were expected"),
    }
}

#[test]
fn sticker_spam_by_tier() {
    let stickers = table(&["mxc://a/1", "mxc://a/2"]);
    let l = limits();
    let b = handle_sticker_spam(&args(&["7"]), TrustTier::Trusted, false, &l, &stickers);
    assert_eq!(b.spec.resolved_count, 7);
    assert!(b.say_done);
    let b = handle_sticker_spam(&args(&[]), TrustTier::Trusted, false, &l, &stickers);
    assert_eq!(b.spec.resolved_count, 2);
    assert!(!b.say_done);
    let b = handle_sticker_spam(&args(&["7"]), TrustTier::Anonymous, false, &l, &stickers);
    assert_eq!(b.spec.resolved_count, 1);
    let b = handle_sticker_spam(&args(&["700"]), TrustTier::Vip, false, &l, &stickers);
    assert_eq!(b.spec.resolved_count, 500);
    let b = handle_sticker_spam(&args(&["700"]), TrustTier::Vip, true, &l, &stickers);
    assert_eq!(b.spec.resolved_count, 1);
    assert_eq!(done_notice().body, "Done!");
}

#[test]
fn thread_and_reply_need_trust_and_a_private_room() {
    let l = limits();
    let lines = table(&["a", "b", "c"]);
    assert!(handle_thread_spam(&args(&["5"]), TrustTier::Anonymous, false, &l, &lines).is_none());
    assert!(handle_thread_spam(&args(&["5"]), TrustTier::Vip, true, &l, &lines).is_none());
    assert!(handle_reply_spam(&args(&["5"]), TrustTier::Anonymous, false, &l, &lines).is_none());
    assert!(handle_reply_spam(&args(&["5"]), TrustTier::Trusted, true, &l, &lines).is_none());
    let t = handle_thread_spam(&args(&[]), TrustTier::Trusted, false, &l, &lines).unwrap();
    assert_eq!(t.spec.resolved_count, 3);
    assert!(!t.numbered);
    let t = handle_thread_spam(&args(&["250"]), TrustTier::Trusted, false, &l, &lines).unwrap();
    assert_eq!(t.spec.resolved_count, 100);
    assert!(t.numbered);
    let r = handle_reply_spam(&args(&[]), TrustTier::Vip, false, &l, &lines).unwrap();
    assert_eq!(r.spec.resolved_count, 3);
    assert!(!r.numbered);
    assert!(!r.spec.was_limited);
    let r = handle_reply_spam(&args(&["nope"]), TrustTier::Trusted, false, &l, &lines).unwrap();
    assert_eq!(r.spec.resolved_count, 3);
    let r = handle_reply_spam(&args(&["4", "9"]), TrustTier::Vip, false, &l, &lines).unwrap();
    assert_eq!(r.spec.resolved_count, 4);
    assert_eq!(r.spec.resolved_delay, 0);
}

#[test]
fn text_items_cycle_through_the_table() {
    let lines = table(&["a", "b", "c"]);
    assert_eq!(text_item(&lines, 0, false), "a");
    assert_eq!(text_item(&lines, 2, false), "c");
    assert_eq!(text_item(&lines, 3, false), "a");
    assert_eq!(text_item(&lines, 7, false), "b");
    assert_eq!(text_item(&lines, 0, true), "1 - a");
    assert_eq!(text_item(&lines, 10, true), "11 - b");
}

#[test]
fn sticker_items_pair_sticker_and_line() {
    let lines = table(&["a", "b", "c"]);
    let stickers = table(&["mxc://x/1", "mxc://x/2"]);
    let s = sticker_item(&lines, &stickers, 4);
    assert_eq!(s.body, "b");
    assert_eq!(s.url, "mxc://x/1");
    let s = sticker_item(&lines, &stickers, 5);
    assert_eq!(s.body, "c");
    assert_eq!(s.url, "mxc://x/2");
}

#[test]
fn failed_delivery_ends_the_burst() {
    let s = resolve(Some(5), None, 6, 100, 20);
    assert_eq!(burst_step(&s, 0, false), BurstStep::Deliver { index: 0, sleep_secs: 0 });
    assert_eq!(burst_step(&s, 2, true), BurstStep::Finished);
    assert_eq!(burst_step(&s, 4, false), BurstStep::Deliver { index: 4, sleep_secs: 0 });
    assert_eq!(burst_step(&s, 5, false), BurstStep::Finished);
}

#[test]
fn content_table_is_never_empty_and_cyclic() {
    assert!(ContentTable::new(Vec::new()).is_none());
    let t = table(&["x", "y"]);
    assert_eq!(t.len(), 2);
    for i in 0..50usize {
        assert_eq!(t.select(i), if i % 2 == 0 { "x" } else { "y" });
    }
    assert_eq!(t.select(usize::MAX), if usize::MAX % 2 == 0 { "x" } else { "y" });
    assert!(default_text_table().len() > 0);
    assert_eq!(default_sticker_table().select(3), "mxc://spiritcroc.de/mkJFKqrNzBGBcILPTIPlTPOV");
}

#[test]
fn reply_chain_follows_each_delivery() {
    let spec = resolve(Some(3), None, 1, 100, 20);
    let mut progress = BurstProgress::start(Some("$command".to_string()), true);
    assert_eq!(progress.next(&spec), BurstStep::Deliver { index: 0, sleep_secs: 0 });
    assert_eq!(progress.target.as_deref(), Some("$command"));
    progress.record(Some("$first".to_string()));
    assert_eq!(progress.next(&spec), BurstStep::Deliver { index: 1, sleep_secs: 0 });
    assert_eq!(progress.target.as_deref(), Some("$first"));
    progress.record(None);
    assert!(progress.failed);
    assert_eq!(progress.delivered, 1);
    assert_eq!(progress.target.as_deref(), Some("$first"));
    assert_eq!(progress.next(&spec), BurstStep::Finished);
}

#[test]
fn loose_burst_keeps_its_target() {
    let spec = resolve(Some(2), None, 1, 100, 20);
    let mut progress = BurstProgress::start(Some("$command".to_string()), false);
    progress.record(Some("$first".to_string()));
    assert_eq!(progress.target.as_deref(), Some("$command"));
    progress.record(Some("$second".to_string()));
    assert_eq!(progress.delivered, 2);
    assert!(!progress.failed);
    assert_eq!(progress.next(&spec), BurstStep::Finished);
}

#[test]
fn reply_without_count_sends_one_reply_for_each_line() {
    let lines = table(&["a", "b", "c", "d"]);
    let burst = handle_reply_spam(&args(&[]), TrustTier::Trusted, false, &limits(), &lines).unwrap();
    assert_eq!(burst.spec.resolved_count, lines.len());
    let mut progress = BurstProgress::start(Some("$command".to_string()), true);
    let mut sent = Vec::new();
    while let BurstStep::Deliver { index, .. } = progress.next(&burst.spec) {
        sent.push(text_item(&lines, index, burst.numbered));
        progress.record(Some(format!("$reply{}", index)));
    }
    assert_eq!(sent, vec!["a", "b", "c", "d"]);
    assert_eq!(progress.target.as_deref(), Some("$reply3"));
}

#[test]
fn closing_notice_follows_a_long_burst_that_went_through() {
    let stickers = table(&["mxc://a/1", "mxc://a/2"]);
    let burst =
        handle_sticker_spam(&args(&["3"]), TrustTier::Trusted, false, &limits(), &stickers);
    assert!(burst.say_done);
    let mut progress = BurstProgress::start(None, false);
    assert!(closing_notice(&burst, &progress).is_none());
    progress.record(Some("$1".to_string()));
    progress.record(Some("$2".to_string()));
    assert!(closing_notice(&burst, &progress).is_none());
    progress.record(Some("$3".to_string()));
    let m = closing_notice(&burst, &progress).unwrap();
    assert_eq!(m.body, "Done!");
    assert_eq!(m.kind, MessageKind::Notice);
}

#[test]
fn closing_notice_is_dropped_after_a_failure() {
    let stickers = table(&["mxc://a/1", "mxc://a/2"]);
    let burst =
        handle_sticker_spam(&args(&["3"]), TrustTier::Trusted, false, &limits(), &stickers);
    let mut progress = BurstProgress::start(None, false);
    progress.record(Some("$1".to_string()));
    progress.record(Some("$2".to_string()));
    progress.record(None);
    assert_eq!(progress.next(&burst.spec), BurstStep::Finished);
    assert!(closing_notice(&burst, &progress).is_none());
}

#[test]
fn closing_notice_is_not_due_for_a_short_burst() {
    let stickers = table(&["mxc://a/1", "mxc://a/2"]);
    let burst =
        handle_sticker_spam(&args(&["2"]), TrustTier::Trusted, false, &limits(), &stickers);
    assert!(!burst.say_done);
    let mut progress = BurstProgress::start(None, false);
    progress.record(Some("$1".to_string()));
    progress.record(Some("$2".to_string()));
    assert!(closing_notice(&burst, &progress).is_none());
}
