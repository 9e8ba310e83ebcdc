//! The presence processor: ties occupancy transitions to notification
//! decisions.
//!
//! `handle` consumes one presence-changed event and returns what the caller
//! owes the outside world: at most one message to send now (the leave
//! notification) and at most one timer to schedule (the deferred join
//! check).  When a scheduled timer fires, the caller hands it back to
//! `handle_timer_expiry`, which re-reads the occupancy and decides whether
//! the join notification is still owed.  The processor itself never sleeps
//! and never talks to the network.

use crate::config::{default_settings, settings_wf, SettingsModel, VCNSettings, _Settings};
use crate::debounce::{gate_armed, DebounceGates};
use crate::occupancy::{dec_count, inc_count, VCCounts};
use vstd::prelude::*;

verus! {

/// One presence-changed event: a member of `guild` joined a voice channel
/// (`member_left == false`) or left one (`member_left == true`).
#[derive(Clone, Copy, Debug, PartialEq, Eq, Structural)]
pub struct PresenceEvent {
    pub guild: u64,
    pub member_left: bool,
}

/// A message the caller owes the sink: `text` to the text channel
/// `channel`.
#[derive(Debug)]
pub struct SendRequest {
    pub channel: u64,
    pub text: String,
}

/// The mathematical image of a [`SendRequest`].
#[verifier::ext_equal]
pub struct SendRequestModel {
    pub channel: u64,
    pub text: Seq<char>,
}

impl View for SendRequest {
    type V = SendRequestModel;

    open spec fn view(&self) -> SendRequestModel {
        SendRequestModel { channel: self.channel, text: self.text@ }
    }
}

/// A deferred join check the caller owes the processor: after `delay`
/// seconds, hand the request back to `handle_timer_expiry`.  The channel
/// and text are captured at arm time, as is the debounce window length.
#[derive(Debug)]
pub struct TimerRequest {
    pub guild: u64,
    pub delay: u64,
    pub channel: u64,
    pub text: String,
}

/// The mathematical image of a [`TimerRequest`].
#[verifier::ext_equal]
pub struct TimerRequestModel {
    pub guild: u64,
    pub delay: u64,
    pub channel: u64,
    pub text: Seq<char>,
}

impl View for TimerRequest {
    type V = TimerRequestModel;

    open spec fn view(&self) -> TimerRequestModel {
        TimerRequestModel {
            guild: self.guild,
            delay: self.delay,
            channel: self.channel,
            text: self.text@,
        }
    }
}

/// Everything one call of `handle` asks of the caller.
#[derive(Debug)]
pub struct HandleOutcome {
    pub send: Option<SendRequest>,
    pub schedule: Option<TimerRequest>,
}

/// The view of an optional send request.
pub open spec fn send_opt_model(o: Option<SendRequest>) -> Option<SendRequestModel> {
    match o {
        Some(s) => Some(s@),
        None => None,
    }
}

/// The view of an optional timer request.
pub open spec fn timer_opt_model(o: Option<TimerRequest>) -> Option<TimerRequestModel> {
    match o {
        Some(t) => Some(t@),
        None => None,
    }
}

/// The processor's whole state as mathematics: the three per-guild tables.
#[verifier::ext_equal]
pub struct ProcessorModel {
    pub settings: Map<u64, SettingsModel>,
    pub counts: Map<u64, u64>,
    pub gates: Map<u64, bool>,
}

/// The configuration `handle` acts on: the stored one, or the default for a
/// guild seen for the first time.
pub open spec fn effective_settings(s: ProcessorModel, guild: u64) -> SettingsModel {
    if s.settings.contains_key(guild) {
        s.settings[guild]
    } else {
        default_settings()
    }
}

/// The settings table after `handle`: a first-seen guild gains the default
/// configuration, everything else is untouched.
pub open spec fn settings_after_handle(s: ProcessorModel, guild: u64) -> Map<u64, SettingsModel> {
    if s.settings.contains_key(guild) {
        s.settings
    } else {
        s.settings.insert(guild, default_settings())
    }
}

/// The occupancy table after one event: untracked guilds are untouched,
/// a leave clamps at zero, a join saturates.  Counting does not consult the
/// configuration or the gates.
pub open spec fn counts_after_handle(counts: Map<u64, u64>, guild: u64, member_left: bool) -> Map<
    u64,
    u64,
> {
    if !counts.contains_key(guild) {
        counts
    } else if member_left {
        counts.insert(guild, dec_count(counts[guild]))
    } else {
        counts.insert(guild, inc_count(counts[guild]))
    }
}

/// Whether a leave event sends the leave notification now: the departing
/// member is the last one, notifications are on, a channel is hooked, and
/// no debounce cycle is running for the guild.
pub open spec fn sends_leave(s: ProcessorModel, guild: u64) -> bool {
    let eff = effective_settings(s, guild);
    &&& s.counts.contains_key(guild)
    &&& s.counts[guild] == 1
    &&& eff.enable
    &&& eff.hooked_channel is Some
    &&& !gate_armed(s.gates, guild)
}

/// Whether a join event arms the guild's gate and schedules the deferred
/// join check: the guild was empty, notifications are on, a channel is
/// hooked, and the guild's gate is Idle.
pub open spec fn arms_timer(s: ProcessorModel, guild: u64) -> bool {
    let eff = effective_settings(s, guild);
    &&& s.counts.contains_key(guild)
    &&& s.counts[guild] == 0
    &&& eff.enable
    &&& eff.hooked_channel is Some
    &&& !gate_armed(s.gates, guild)
}

/// The table of gates after one event: an arming join arms the guild's
/// own entry; nothing else touches the table.
pub open spec fn gates_after_handle(s: ProcessorModel, guild: u64, member_left: bool) -> Map<
    u64,
    bool,
> {
    if !member_left && arms_timer(s, guild) {
        s.gates.insert(guild, true)
    } else {
        s.gates
    }
}

/// The whole state after one event.
pub open spec fn handle_step(s: ProcessorModel, guild: u64, member_left: bool) -> ProcessorModel {
    ProcessorModel {
        settings: settings_after_handle(s, guild),
        counts: counts_after_handle(s.counts, guild, member_left),
        gates: gates_after_handle(s, guild, member_left),
    }
}

/// The message one event sends now: the leave notification, exactly when
/// `sends_leave` holds.
pub open spec fn handle_send(s: ProcessorModel, guild: u64, member_left: bool) -> Option<
    SendRequestModel,
> {
    if member_left && sends_leave(s, guild) {
        let eff = effective_settings(s, guild);
        Some(SendRequestModel { channel: eff.hooked_channel->0, text: eff.leave_message })
    } else {
        None
    }
}

/// The timer one event schedules: the deferred join check, exactly when
/// `arms_timer` holds, carrying the configuration captured at arm time.
pub open spec fn handle_schedule(s: ProcessorModel, guild: u64, member_left: bool) -> Option<
    TimerRequestModel,
> {
    if !member_left && arms_timer(s, guild) {
        let eff = effective_settings(s, guild);
        Some(
            TimerRequestModel {
                guild,
                delay: eff.duration,
                channel: eff.hooked_channel->0,
                text: eff.join_message,
            },
        )
    } else {
        None
    }
}

/// Whether a timer expiry still owes the join notification: the guild is
/// tracked and occupied.
pub open spec fn expiry_sends(s: ProcessorModel, guild: u64) -> bool {
    s.counts.contains_key(guild) && s.counts[guild] != 0
}

/// The message a timer expiry sends: the join notification captured at arm
/// time, exactly when the guild is still occupied.
pub open spec fn expiry_send(s: ProcessorModel, t: TimerRequestModel) -> Option<SendRequestModel> {
    if expiry_sends(s, t.guild) {
        Some(SendRequestModel { channel: t.channel, text: t.text })
    } else {
        None
    }
}

/// The state a guild's configuration and occupancy reach at discovery: the
/// default configuration (kept or replaced as `is_new` says) and the live
/// occupancy handed in by the caller.
pub open spec fn discovery_step(
    s: ProcessorModel,
    guild: u64,
    is_new: bool,
    voice_members: u64,
) -> ProcessorModel {
    ProcessorModel {
        settings: if is_new || !s.settings.contains_key(guild) {
            s.settings.insert(guild, default_settings())
        } else {
            s.settings
        },
        counts: s.counts.insert(guild, voice_members),
        gates: s.gates,
    }
}

/// Folds a sequence of presence events over the state, one `handle` at a
/// time.
pub open spec fn run_events(s: ProcessorModel, events: Seq<PresenceEvent>) -> ProcessorModel
    decreases events.len(),
{
    if events.len() == 0 {
        s
    } else {
        run_events(
            handle_step(s, events[0].guild, events[0].member_left),
            events.subrange(1, events.len() as int),
        )
    }
}

/// The presence-and-debounce engine: the three per-guild tables and the
/// decision logic over them.
pub struct PresenceProcessor {
    pub settings: VCNSettings,
    pub counts: VCCounts,
    pub gates: DebounceGates,
}

impl View for PresenceProcessor {
    type V = ProcessorModel;

    open spec fn view(&self) -> ProcessorModel {
        ProcessorModel { settings: self.settings@, counts: self.counts@, gates: self.gates@ }
    }
}

impl PresenceProcessor {
    /// The processor-wide invariant: every stored configuration is well
    /// formed.
    pub open spec fn wf(&self) -> bool {
        forall|g: u64| #[trigger] self@.settings.contains_key(g) ==> settings_wf(self@.settings[g])
    }

    pub fn new() -> (r: Self)
        ensures
            r@.settings == Map::<u64, SettingsModel>::empty(),
            r@.counts == Map::<u64, u64>::empty(),
            r@.gates == Map::<u64, bool>::empty(),
            r.wf(),
    {
        PresenceProcessor {
            settings: VCNSettings::new(),
            counts: VCCounts::new(),
            gates: DebounceGates::new(),
        }
    }

    /// Registers a guild: stores the default configuration (replacing any
    /// earlier one when the guild is newly created, keeping it otherwise)
    /// and records the live voice-channel occupancy summed by the caller.
    pub fn guild_discovered(&mut self, guild: u64, is_new: bool, voice_members: u64)
        ensures
            final(self)@ == discovery_step(old(self)@, guild, is_new, voice_members),
            old(self).wf() ==> final(self).wf(),
    {
        if is_new {
            self.settings.insert_default(guild);
        } else {
            self.settings.ensure_default(guild);
        }
        self.counts.set(guild, voice_members);
        proof {
            assert(final(self)@ =~= discovery_step(old(self)@, guild, is_new, voice_members));
        }
    }

    /// Consumes one presence-changed event.
    ///
    /// A first-seen guild gains the default configuration.  Occupancy is
    /// updated for every event of a tracked guild, whether or not
    /// notifications are on; events of untracked guilds are dropped.  The
    /// leave notification is owed exactly when `sends_leave` held before
    /// the event; the deferred join check exactly when `arms_timer` held.
    pub fn handle(&mut self, guild: u64, member_left: bool) -> (outcome: HandleOutcome)
        ensures
            final(self)@ == handle_step(old(self)@, guild, member_left),
            send_opt_model(outcome.send) == handle_send(old(self)@, guild, member_left),
            timer_opt_model(outcome.schedule) == handle_schedule(old(self)@, guild, member_left),
            old(self).wf() ==> final(self).wf(),
    {
        let st: _Settings = self.settings.get_or_default(guild);
        let mut outcome = HandleOutcome { send: None, schedule: None };
        let count = match self.counts.read(guild) {
            Some(c) => c,
            None => {
                // Unknown to the occupancy store: the event is dropped.
                proof {
                    assert(final(self)@ =~= handle_step(old(self)@, guild, member_left));
                }
                return outcome;
            },
        };
        if member_left {
            if count == 1 && st.enable && !self.gates.is_armed(guild) {
                if let Some(channel) = st.hooked_channel {
                    outcome.send = Some(SendRequest { channel, text: st.leave_message });
                }
            }
            self.counts.decrement(guild);
        } else {
            self.counts.increment(guild);
            if count == 0 && st.enable {
                if let Some(channel) = st.hooked_channel {
                    if self.gates.try_arm(guild) {
                        outcome.schedule = Some(
                            TimerRequest {
                                guild,
                                delay: st.duration,
                                channel,
                                text: st.join_message,
                            },
                        );
                    }
                    proof {
                        assert(final(self)@.gates =~= gates_after_handle(
                            old(self)@,
                            guild,
                            member_left,
                        ));
                    }
                }
            }
        }
        proof {
            assert(final(self)@ =~= handle_step(old(self)@, guild, member_left));
        }
        outcome
    }

    /// Takes an expired timer back: re-reads the occupancy, owes the
    /// captured join notification exactly when the guild is still occupied,
    /// and releases the guild's gate either way, ending the debounce cycle.
    pub fn handle_timer_expiry(&mut self, timer: &TimerRequest) -> (send: Option<SendRequest>)
        ensures
            final(self)@.settings == old(self)@.settings,
            final(self)@.counts == old(self)@.counts,
            final(self)@.gates == old(self)@.gates.insert(timer.guild, false),
            send_opt_model(send) == expiry_send(old(self)@, timer@),
            old(self).wf() ==> final(self).wf(),
    {
        let send = match self.counts.read(timer.guild) {
            Some(c) => if c != 0 {
                Some(SendRequest { channel: timer.channel, text: timer.text.clone() })
            } else {
                None
            },
            None => None,
        };
        self.gates.release(timer.guild);
        proof {
            if old(self).wf() {
                assert forall|g: u64| final(self)@.settings.contains_key(g) implies settings_wf(
                    final(self)@.settings[g],
                ) by {
                    assert(old(self)@.settings.contains_key(g));
                }
            }
        }
        send
    }
}

} // verus!
