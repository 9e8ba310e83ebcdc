use vc_notifier::debounce::DebounceGate;
use vc_notifier::occupancy::VCCounts;
use vc_notifier::processor::PresenceProcessor;

#[test]
fn occupancy_clamps_at_zero() {
    let mut counts = VCCounts::new();
    counts.init(1);
    counts.increment(1);
    counts.decrement(1);
    counts.decrement(1);
    counts.decrement(1);
    assert_eq!(counts.read(1), Some(0));
}

#[test]
fn occupancy_untracked_guild_is_dropped() {
    let mut counts = VCCounts::new();
    assert_eq!(counts.read(1), None);
    counts.increment(1);
    counts.decrement(1);
    assert_eq!(counts.read(1), None);
}

#[test]
fn occupancy_init_is_idempotent() {
    let mut counts = VCCounts::new();
    counts.init(1);
    counts.increment(1);
    counts.init(1);
    assert_eq!(counts.read(1), Some(1));
    counts.set(1, 7);
    assert_eq!(counts.read(1), Some(7));
}

#[test]
fn occupancy_saturates_at_max() {
    let mut counts = VCCounts::new();
    counts.set(1, u64::MAX);
    counts.increment(1);
    assert_eq!(counts.read(1), Some(u64::MAX));
    counts.decrement(1);
    assert_eq!(counts.read(1), Some(u64::MAX - 1));
}

#[test]
fn gate_arms_once_per_cycle() {
    let mut gate = DebounceGate::new();
    assert!(!gate.is_armed());
    assert!(gate.try_arm());
    assert!(gate.is_armed());
    assert!(!gate.try_arm());
    gate.release();
    assert!(!gate.is_armed());
    assert!(gate.try_arm());
}

/// A guild starts empty with notifications on, a ten second window and a
/// hooked channel.  The first join arms the one timer of the cycle, a
/// second join within the window arms no other, the expiry finds the guild
/// occupied and sends the join message, the first leave is silent, and the
/// last leave sends the leave message.
#[test]
fn burst_of_joins_sends_one_join_and_one_leave_message() {
    let mut p = PresenceProcessor::new();
    p.guild_discovered(7, true, 0);
    p.settings.hook_channel(7, 99);
    p.settings.set_enable(7);

    let first_join = p.handle(7, false);
    assert!(first_join.send.is_none());
    let timer = first_join.schedule.expect("first join must arm the timer");
    assert_eq!(timer.guild, 7);
    assert_eq!(timer.delay, 10);
    assert_eq!(timer.channel, 99);
    assert_eq!(timer.text, "Someone joined voice channel.");

    let second_join = p.handle(7, false);
    assert!(second_join.send.is_none());
    assert!(second_join.schedule.is_none(), "no second timer while armed");
    assert_eq!(p.counts.read(7), Some(2));

    let at_expiry = p.handle_timer_expiry(&timer).expect("still occupied");
    assert_eq!(at_expiry.channel, 99);
    assert_eq!(at_expiry.text, "Someone joined voice channel.");

    let first_leave = p.handle(7, true);
    assert!(first_leave.send.is_none(), "not the last member");
    assert_eq!(p.counts.read(7), Some(1));

    let last_leave = p.handle(7, true);
    let msg = last_leave.send.expect("last leave sends the leave message");
    assert_eq!(msg.channel, 99);
    assert_eq!(msg.text, "All participants left from voice channel.");
    assert_eq!(p.counts.read(7), Some(0));
}

/// A member joins and leaves again before the window elapses: occupancy is
/// back at zero at expiry, so no join message is sent, and the leave during
/// the armed window is suppressed too.
#[test]
fn join_then_leave_within_window_sends_nothing() {
    let mut p = PresenceProcessor::new();
    p.guild_discovered(7, true, 0);
    p.settings.hook_channel(7, 99);
    p.settings.set_enable(7);

    let join = p.handle(7, false);
    let timer = join.schedule.expect("join arms the timer");

    let leave = p.handle(7, true);
    assert!(leave.send.is_none(), "suppressed while the window runs");
    assert_eq!(p.counts.read(7), Some(0));

    assert!(p.handle_timer_expiry(&timer).is_none(), "empty at expiry");
}

/// After an expiry released it, a fresh debounce cycle can arm again.
#[test]
fn gate_released_at_expiry_allows_a_new_cycle() {
    let mut p = PresenceProcessor::new();
    p.guild_discovered(7, true, 0);
    p.settings.hook_channel(7, 99);
    p.settings.set_enable(7);

    let timer = p.handle(7, false).schedule.unwrap();
    let _ = p.handle(7, true);
    assert!(p.handle_timer_expiry(&timer).is_none());

    let again = p.handle(7, false);
    assert!(again.schedule.is_some(), "gate is Idle again");
}

/// Disabling notifications suppresses both messages but occupancy keeps
/// counting.
#[test]
fn disabled_guild_counts_but_stays_silent() {
    let mut p = PresenceProcessor::new();
    p.guild_discovered(7, true, 3);

    let join = p.handle(7, false);
    assert!(join.send.is_none());
    assert!(join.schedule.is_none());
    assert_eq!(p.counts.read(7), Some(4));

    for _ in 0..4 {
        let leave = p.handle(7, true);
        assert!(leave.send.is_none());
        assert!(leave.schedule.is_none());
    }
    assert_eq!(p.counts.read(7), Some(0));

    let empty_join = p.handle(7, false);
    assert!(empty_join.schedule.is_none(), "disabled guilds never arm");
    assert_eq!(p.counts.read(7), Some(1));
}

/// Each guild has its own gate: a running cycle in one guild does not
/// suppress another guild's notifications.
#[test]
fn debounce_cycles_are_independent_per_guild() {
    let mut p = PresenceProcessor::new();
    p.guild_discovered(1, true, 0);
    p.settings.hook_channel(1, 11);
    p.settings.set_enable(1);
    p.guild_discovered(2, true, 1);
    p.settings.hook_channel(2, 22);
    p.settings.set_enable(2);

    let timer = p.handle(1, false).schedule.expect("guild 1 arms");

    // guild 2 can still arm its own timer and send its own leave message
    let leave = p.handle(2, true);
    let msg = leave.send.expect("guild 2 is not suppressed by guild 1");
    assert_eq!(msg.channel, 22);

    let join = p.handle(2, false);
    assert!(join.schedule.is_some(), "guild 2 arms its own timer");

    let sent = p.handle_timer_expiry(&timer).expect("guild 1 still occupied");
    assert_eq!(sent.channel, 11);
}

/// An event for a guild the occupancy store never saw is dropped: no count
/// appears and nothing is sent, though the guild gains a default
/// configuration.
#[test]
fn event_for_untracked_guild_is_dropped() {
    let mut p = PresenceProcessor::new();
    let outcome = p.handle(5, false);
    assert!(outcome.send.is_none());
    assert!(outcome.schedule.is_none());
    assert_eq!(p.counts.read(5), None);
    assert!(!p.settings.get_settings(5).unwrap().enable);
}

/// Guild discovery records the live occupancy, and rediscovery of a known
/// guild keeps its configuration.
#[test]
fn discovery_records_live_occupancy() {
    let mut p = PresenceProcessor::new();
    p.guild_discovered(4, true, 6);
    assert_eq!(p.counts.read(4), Some(6));

    p.settings.hook_channel(4, 44);
    p.guild_discovered(4, false, 2);
    assert_eq!(p.counts.read(4), Some(2));
    assert_eq!(p.settings.get_settings(4).unwrap().hooked_channel, Some(44));

    p.guild_discovered(4, true, 0);
    assert_eq!(p.settings.get_settings(4).unwrap().hooked_channel, None);
}

/// The timer expiry for a guild whose count disappeared sends nothing and
/// still releases the armed flag.
#[test]
fn expiry_for_unknown_guild_sends_nothing() {
    let mut p = PresenceProcessor::new();
    p.guild_discovered(7, true, 0);
    p.settings.hook_channel(7, 99);
    p.settings.set_enable(7);
    let timer = p.handle(7, false).schedule.unwrap();

    let mut q = PresenceProcessor::new();
    assert!(q.handle_timer_expiry(&timer).is_none());
}

/// The configured texts and window length are captured at arm time.
#[test]
fn custom_messages_and_duration_are_used() {
    let mut p = PresenceProcessor::new();
    p.guild_discovered(8, true, 0);
    p.settings.hook_channel(8, 80);
    p.settings.set_duration(8, 3);
    p.settings.set_join_message(8, String::from("hello there"));
    p.settings.set_leave_message(8, String::from("all gone"));
    p.settings.set_enable(8);

    let timer = p.handle(8, false).schedule.unwrap();
    assert_eq!(timer.delay, 3);
    assert_eq!(timer.text, "hello there");

    let sent = p.handle_timer_expiry(&timer).unwrap();
    assert_eq!(sent.text, "hello there");

    let leave = p.handle(8, true).send.unwrap();
    assert_eq!(leave.text, "all gone");
    assert_eq!(leave.channel, 80);
}
