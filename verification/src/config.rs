//! The configuration store: one notification configuration per guild,
//! together with the operator commands that read and update it.

use std::collections::HashMap;
use vstd::prelude::*;

verus! {

broadcast use vstd::std_specs::hash::group_hash_axioms;

/// The notification configuration of one guild.
///
/// `enable` may only become true once a destination channel is hooked; see
/// [`settings_wf`].
#[derive(Debug)]
pub struct _Settings {
    pub enable: bool,
    pub duration: u64,
    pub join_message: String,
    pub leave_message: String,
    pub hooked_channel: Option<u64>,
}

/// The mathematical image of a [`_Settings`] record: the message texts as
/// character sequences, everything else as plain values.
#[verifier::ext_equal]
pub struct SettingsModel {
    pub enable: bool,
    pub duration: u64,
    pub join_message: Seq<char>,
    pub leave_message: Seq<char>,
    pub hooked_channel: Option<u64>,
}

impl View for _Settings {
    type V = SettingsModel;

    open spec fn view(&self) -> SettingsModel {
        SettingsModel {
            enable: self.enable,
            duration: self.duration,
            join_message: self.join_message@,
            leave_message: self.leave_message@,
            hooked_channel: self.hooked_channel,
        }
    }
}

/// The configuration a guild gets on first sight: notifications off, a ten
/// second debounce window, the stock message texts, no hooked channel.
pub open spec fn default_settings() -> SettingsModel {
    SettingsModel {
        enable: false,
        duration: 10,
        join_message: "Someone joined voice channel."@,
        leave_message: "All participants left from voice channel."@,
        hooked_channel: None,
    }
}

/// The per-guild configuration invariant: notifications can only be enabled
/// while a destination channel is hooked.
pub open spec fn settings_wf(s: SettingsModel) -> bool {
    s.enable ==> s.hooked_channel is Some
}

impl _Settings {
    pub fn new() -> (s: Self)
        ensures
            s@ == default_settings(),
    {
        let s = _Settings {
            enable: false,
            duration: 10,
            join_message: "Someone joined voice channel.".to_owned(),
            leave_message: "All participants left from voice channel.".to_owned(),
            hooked_channel: None,
        };
        proof {
            assert(s@ =~= default_settings());
        }
        s
    }
}

/// What `set_enable` answered.
#[derive(Clone, Copy, Debug, PartialEq, Eq, Structural)]
pub enum EnableOutcome {
    /// The guild was never seen; nothing changed.
    UnknownGuild,
    /// Notifications were already on; nothing changed.
    AlreadyEnabled,
    /// No channel is hooked yet, so notifications may not be turned on.
    MissingHook,
    /// Notifications are now on.
    Enabled,
}

/// What `set_disable` answered.
#[derive(Clone, Copy, Debug, PartialEq, Eq, Structural)]
pub enum DisableOutcome {
    /// The guild was never seen; nothing changed.
    UnknownGuild,
    /// Notifications were already off; nothing changed.
    AlreadyDisabled,
    /// Notifications are now off.
    Disabled,
}

/// What a plain field update (`hook_channel`, `set_duration`,
/// `set_join_message`, `set_leave_message`) answered.
#[derive(Clone, Copy, Debug, PartialEq, Eq, Structural)]
pub enum UpdateOutcome {
    /// The guild was never seen; nothing changed.
    UnknownGuild,
    /// The field was stored.
    Updated,
}

/// Maps each guild to its notification configuration.  Entries are created
/// at guild discovery and never removed.
pub struct VCNSettings {
    pub settings: HashMap<u64, _Settings>,
}

impl View for VCNSettings {
    type V = Map<u64, SettingsModel>;

    open spec fn view(&self) -> Map<u64, SettingsModel> {
        self.settings@.map_values(|s: _Settings| s@)
    }
}

impl VCNSettings {
    /// The store-wide invariant: every stored configuration is well formed.
    pub open spec fn wf(&self) -> bool {
        forall|g: u64| #[trigger] self@.contains_key(g) ==> settings_wf(self@[g])
    }

    pub fn new() -> (r: Self)
        ensures
            r@ == Map::<u64, SettingsModel>::empty(),
            r.wf(),
    {
        let r = VCNSettings { settings: HashMap::new() };
        proof {
            assert(r@ =~= Map::<u64, SettingsModel>::empty());
        }
        r
    }

    /// Stores the default configuration for the guild, replacing any
    /// earlier one.
    pub fn insert_default(&mut self, guild: u64)
        ensures
            final(self)@ == old(self)@.insert(guild, default_settings()),
            old(self).wf() ==> final(self).wf(),
    {
        self.settings.insert(guild, _Settings::new());
        proof {
            assert(final(self)@ =~= old(self)@.insert(guild, default_settings()));
        }
    }

    /// Stores the default configuration for the guild unless one is already
    /// there; idempotent.
    pub fn ensure_default(&mut self, guild: u64)
        ensures
            final(self)@ == if old(self)@.contains_key(guild) {
                old(self)@
            } else {
                old(self)@.insert(guild, default_settings())
            },
            old(self).wf() ==> final(self).wf(),
    {
        if !self.settings.contains_key(&guild) {
            self.settings.insert(guild, _Settings::new());
            proof {
                assert(final(self)@ =~= old(self)@.insert(guild, default_settings()));
            }
        }
    }

    /// The guild's configuration, default-constructing and storing it first
    /// if the guild was never seen.
    pub fn get_or_default(&mut self, guild: u64) -> (s: _Settings)
        ensures
            final(self)@ == if old(self)@.contains_key(guild) {
                old(self)@
            } else {
                old(self)@.insert(guild, default_settings())
            },
            s@ == final(self)@[guild],
            old(self).wf() ==> final(self).wf(),
    {
        self.ensure_default(guild);
        self.get_settings(guild).unwrap()
    }

    /// A copy of the guild's configuration, or `None` for an unknown guild.
    pub fn get_settings(&self, guild: u64) -> (r: Option<_Settings>)
        ensures
            r is Some <==> self@.contains_key(guild),
            r matches Some(s) ==> s@ == self@[guild],
    {
        match self.settings.get(&guild) {
            Some(s) => Some(
                _Settings {
                    enable: s.enable,
                    duration: s.duration,
                    join_message: s.join_message.clone(),
                    leave_message: s.leave_message.clone(),
                    hooked_channel: s.hooked_channel,
                },
            ),
            None => None,
        }
    }

    /// Turns notifications on, provided the guild is known, notifications
    /// are off, and a channel is hooked; otherwise nothing changes and the
    /// outcome says why.
    pub fn set_enable(&mut self, guild: u64) -> (r: EnableOutcome)
        ensures
            !old(self)@.contains_key(guild) ==> r == EnableOutcome::UnknownGuild
                && final(self)@ == old(self)@,
            old(self)@.contains_key(guild) && old(self)@[guild].enable ==> r
                == EnableOutcome::AlreadyEnabled && final(self)@ == old(self)@,
            old(self)@.contains_key(guild) && !old(self)@[guild].enable && old(
                self,
            )@[guild].hooked_channel is None ==> r == EnableOutcome::MissingHook && final(self)@
                == old(self)@,
            old(self)@.contains_key(guild) && !old(self)@[guild].enable && old(
                self,
            )@[guild].hooked_channel is Some ==> r == EnableOutcome::Enabled && final(self)@ == old(
                self,
            )@.insert(guild, SettingsModel { enable: true, ..old(self)@[guild] }),
            old(self).wf() ==> final(self).wf(),
    {
        match self.get_settings(guild) {
            None => EnableOutcome::UnknownGuild,
            Some(mut s) => {
                if s.enable {
                    EnableOutcome::AlreadyEnabled
                } else if s.hooked_channel.is_none() {
                    EnableOutcome::MissingHook
                } else {
                    s.enable = true;
                    self.settings.insert(guild, s);
                    proof {
                        assert(final(self)@ =~= old(self)@.insert(
                            guild,
                            SettingsModel { enable: true, ..old(self)@[guild] },
                        ));
                    }
                    EnableOutcome::Enabled
                }
            },
        }
    }

    /// Turns notifications off for a known guild with notifications on;
    /// otherwise nothing changes and the outcome says why.
    pub fn set_disable(&mut self, guild: u64) -> (r: DisableOutcome)
        ensures
            !old(self)@.contains_key(guild) ==> r == DisableOutcome::UnknownGuild
                && final(self)@ == old(self)@,
            old(self)@.contains_key(guild) && !old(self)@[guild].enable ==> r
                == DisableOutcome::AlreadyDisabled && final(self)@ == old(self)@,
            old(self)@.contains_key(guild) && old(self)@[guild].enable ==> r
                == DisableOutcome::Disabled && final(self)@ == old(self)@.insert(
                guild,
                SettingsModel { enable: false, ..old(self)@[guild] },
            ),
            old(self).wf() ==> final(self).wf(),
    {
        match self.get_settings(guild) {
            None => DisableOutcome::UnknownGuild,
            Some(mut s) => {
                if !s.enable {
                    DisableOutcome::AlreadyDisabled
                } else {
                    s.enable = false;
                    self.settings.insert(guild, s);
                    proof {
                        assert(final(self)@ =~= old(self)@.insert(
                            guild,
                            SettingsModel { enable: false, ..old(self)@[guild] },
                        ));
                    }
                    DisableOutcome::Disabled
                }
            },
        }
    }

    /// Hooks the destination channel for a known guild.
    pub fn hook_channel(&mut self, guild: u64, channel: u64) -> (r: UpdateOutcome)
        ensures
            !old(self)@.contains_key(guild) ==> r == UpdateOutcome::UnknownGuild && final(self)@
                == old(self)@,
            old(self)@.contains_key(guild) ==> r == UpdateOutcome::Updated && final(self)@ == old(
                self,
            )@.insert(guild, SettingsModel { hooked_channel: Some(channel), ..old(self)@[guild] }),
            old(self).wf() ==> final(self).wf(),
    {
        match self.get_settings(guild) {
            None => UpdateOutcome::UnknownGuild,
            Some(mut s) => {
                s.hooked_channel = Some(channel);
                self.settings.insert(guild, s);
                proof {
                    assert(final(self)@ =~= old(self)@.insert(
                        guild,
                        SettingsModel { hooked_channel: Some(channel), ..old(self)@[guild] },
                    ));
                }
                UpdateOutcome::Updated
            },
        }
    }

    /// Sets the debounce window length, in seconds, for a known guild.
    pub fn set_duration(&mut self, guild: u64, seconds: u64) -> (r: UpdateOutcome)
        ensures
            !old(self)@.contains_key(guild) ==> r == UpdateOutcome::UnknownGuild && final(self)@
                == old(self)@,
            old(self)@.contains_key(guild) ==> r == UpdateOutcome::Updated && final(self)@ == old(
                self,
            )@.insert(guild, SettingsModel { duration: seconds, ..old(self)@[guild] }),
            old(self).wf() ==> final(self).wf(),
    {
        match self.get_settings(guild) {
            None => UpdateOutcome::UnknownGuild,
            Some(mut s) => {
                s.duration = seconds;
                self.settings.insert(guild, s);
                proof {
                    assert(final(self)@ =~= old(self)@.insert(
                        guild,
                        SettingsModel { duration: seconds, ..old(self)@[guild] },
                    ));
                }
                UpdateOutcome::Updated
            },
        }
    }

    /// Sets the join notification text for a known guild.
    pub fn set_join_message(&mut self, guild: u64, text: String) -> (r: UpdateOutcome)
        ensures
            !old(self)@.contains_key(guild) ==> r == UpdateOutcome::UnknownGuild && final(self)@
                == old(self)@,
            old(self)@.contains_key(guild) ==> r == UpdateOutcome::Updated && final(self)@ == old(
                self,
            )@.insert(guild, SettingsModel { join_message: text@, ..old(self)@[guild] }),
            old(self).wf() ==> final(self).wf(),
    {
        match self.get_settings(guild) {
            None => UpdateOutcome::UnknownGuild,
            Some(mut s) => {
                s.join_message = text;
                self.settings.insert(guild, s);
                proof {
                    assert(final(self)@ =~= old(self)@.insert(
                        guild,
                        SettingsModel { join_message: text@, ..old(self)@[guild] },
                    ));
                }
                UpdateOutcome::Updated
            },
        }
    }

    /// Sets the leave notification text for a known guild.
    pub fn set_leave_message(&mut self, guild: u64, text: String) -> (r: UpdateOutcome)
        ensures
            !old(self)@.contains_key(guild) ==> r == UpdateOutcome::UnknownGuild && final(self)@
                == old(self)@,
            old(self)@.contains_key(guild) ==> r == UpdateOutcome::Updated && final(self)@ == old(
                self,
            )@.insert(guild, SettingsModel { leave_message: text@, ..old(self)@[guild] }),
            old(self).wf() ==> final(self).wf(),
    {
        match self.get_settings(guild) {
            None => UpdateOutcome::UnknownGuild,
            Some(mut s) => {
                s.leave_message = text;
                self.settings.insert(guild, s);
                proof {
                    assert(final(self)@ =~= old(self)@.insert(
                        guild,
                        SettingsModel { leave_message: text@, ..old(self)@[guild] },
                    ));
                }
                UpdateOutcome::Updated
            },
        }
    }
}

} // verus!
