use vc_notifier::config::{DisableOutcome, EnableOutcome, UpdateOutcome, VCNSettings, _Settings};

#[test]
fn default_settings_fields() {
    let s = _Settings::new();
    assert_eq!(s.enable, false);
    assert_eq!(s.duration, 10);
    assert_eq!(s.join_message, "Someone joined voice channel.");
    assert_eq!(s.leave_message, "All participants left from voice channel.");
    assert_eq!(s.hooked_channel, None);
}

#[test]
fn commands_on_unknown_guild_are_noops() {
    let mut store = VCNSettings::new();
    assert_eq!(store.set_enable(1), EnableOutcome::UnknownGuild);
    assert_eq!(store.set_disable(1), DisableOutcome::UnknownGuild);
    assert_eq!(store.hook_channel(1, 2), UpdateOutcome::UnknownGuild);
    assert_eq!(store.set_duration(1, 3), UpdateOutcome::UnknownGuild);
    assert_eq!(
        store.set_join_message(1, String::from("hi")),
        UpdateOutcome::UnknownGuild
    );
    assert_eq!(
        store.set_leave_message(1, String::from("bye")),
        UpdateOutcome::UnknownGuild
    );
    assert!(store.get_settings(1).is_none());
}

#[test]
fn enable_needs_a_hooked_channel_first() {
    let mut store = VCNSettings::new();
    store.ensure_default(1);
    assert_eq!(store.set_enable(1), EnableOutcome::MissingHook);
    assert_eq!(store.hook_channel(1, 42), UpdateOutcome::Updated);
    assert_eq!(store.set_enable(1), EnableOutcome::Enabled);
    assert_eq!(store.set_enable(1), EnableOutcome::AlreadyEnabled);
    let s = store.get_settings(1).unwrap();
    assert!(s.enable);
    assert_eq!(s.hooked_channel, Some(42));
}

#[test]
fn disable_outcomes() {
    let mut store = VCNSettings::new();
    store.ensure_default(1);
    assert_eq!(store.set_disable(1), DisableOutcome::AlreadyDisabled);
    store.hook_channel(1, 42);
    store.set_enable(1);
    assert_eq!(store.set_disable(1), DisableOutcome::Disabled);
    assert_eq!(store.set_disable(1), DisableOutcome::AlreadyDisabled);
    assert!(!store.get_settings(1).unwrap().enable);
}

#[test]
fn field_updates_are_stored() {
    let mut store = VCNSettings::new();
    store.ensure_default(9);
    assert_eq!(store.set_duration(9, 25), UpdateOutcome::Updated);
    assert_eq!(
        store.set_join_message(9, String::from("welcome")),
        UpdateOutcome::Updated
    );
    assert_eq!(
        store.set_leave_message(9, String::from("farewell")),
        UpdateOutcome::Updated
    );
    let s = store.get_settings(9).unwrap();
    assert_eq!(s.duration, 25);
    assert_eq!(s.join_message, "welcome");
    assert_eq!(s.leave_message, "farewell");
}

#[test]
fn get_or_default_stores_on_first_sight() {
    let mut store = VCNSettings::new();
    let s = store.get_or_default(3);
    assert!(!s.enable);
    assert!(store.get_settings(3).is_some());
    store.hook_channel(3, 30);
    let s2 = store.get_or_default(3);
    assert_eq!(s2.hooked_channel, Some(30));
}

#[test]
fn insert_default_resets_ensure_default_keeps() {
    let mut store = VCNSettings::new();
    store.ensure_default(5);
    store.hook_channel(5, 8);
    store.ensure_default(5);
    assert_eq!(store.get_settings(5).unwrap().hooked_channel, Some(8));
    store.insert_default(5);
    assert_eq!(store.get_settings(5).unwrap().hooked_channel, None);
}
