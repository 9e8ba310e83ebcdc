//! The engine's guarantees, stated once over the specification functions
//! that the processor's contracts use, and proved for every state and
//! event.

use crate::debounce::gate_armed;
use crate::processor::{
    arms_timer, counts_after_handle, effective_settings, expiry_send, expiry_sends, handle_schedule,
    handle_send, handle_step, run_events, PresenceEvent, ProcessorModel, SendRequestModel,
    TimerRequestModel,
};
use vstd::prelude::*;

verus! {

/// Occupancy never goes negative: after any sequence of join and leave
/// events, every tracked guild's count is at least zero, even when leaves
/// exceed recorded joins — a leave of an empty guild clamps at zero — and
/// no guild starts or stops being tracked by presence events alone.
pub proof fn lemma_occupancy_nonnegative(s: ProcessorModel, events: Seq<PresenceEvent>)
    ensures
        run_events(s, events).counts.dom() == s.counts.dom(),
        forall|g: u64| #[trigger] run_events(s, events).counts.contains_key(g) ==> run_events(
            s,
            events,
        ).counts[g] >= 0,
    decreases events.len(),
{
    if events.len() > 0 {
        let s1 = handle_step(s, events[0].guild, events[0].member_left);
        assert(s1.counts.dom() =~= s.counts.dom());
        lemma_occupancy_nonnegative(s1, events.subrange(1, events.len() as int));
    }
}

/// The clamp itself: a leave seen while the recorded count is already zero
/// leaves the count at zero instead of underflowing.
pub proof fn lemma_leave_clamps_at_zero(s: ProcessorModel, guild: u64)
    requires
        s.counts.contains_key(guild),
        s.counts[guild] == 0,
    ensures
        handle_step(s, guild, true).counts[guild] == 0,
{
}

/// At most one timer per debounce cycle: while a guild's gate is armed, no
/// event — of that guild or any other — schedules a second deferred check
/// for it, and only a timer expiry, never an event, releases its gate.
pub proof fn lemma_at_most_one_timer(s: ProcessorModel, guild: u64, event: PresenceEvent)
    requires
        gate_armed(s.gates, guild),
    ensures
        handle_schedule(s, event.guild, event.member_left) matches Some(t) ==> t.guild != guild,
        gate_armed(handle_step(s, event.guild, event.member_left).gates, guild),
{
}

/// A deferred check is scheduled only on an empty-to-occupied transition
/// with notifications on and a hooked channel, and scheduling it arms the
/// gate, so the next such transition cannot schedule another.
pub proof fn lemma_schedule_arms_gate(s: ProcessorModel, guild: u64, member_left: bool)
    ensures
        handle_schedule(s, guild, member_left) is Some ==> {
            &&& !member_left
            &&& arms_timer(s, guild)
            &&& !gate_armed(s.gates, guild)
            &&& gate_armed(handle_step(s, guild, member_left).gates, guild)
        },
{
}

/// One guild's debounce cycle is its own: an event of one guild never
/// changes another guild's gate.
pub proof fn lemma_gates_are_per_guild(s: ProcessorModel, guild: u64, event: PresenceEvent)
    requires
        event.guild != guild,
    ensures
        gate_armed(handle_step(s, event.guild, event.member_left).gates, guild) == gate_armed(
            s.gates,
            guild,
        ),
{
}

/// The timer expiry decision: if occupancy returned to zero before the
/// debounce window elapsed, no join message is sent; if the guild is still
/// occupied at expiry, exactly the one message captured at arm time is
/// sent.
pub proof fn lemma_expiry_decision(s: ProcessorModel, t: TimerRequestModel)
    ensures
        !expiry_sends(s, t.guild) ==> expiry_send(s, t) is None,
        s.counts.contains_key(t.guild) && s.counts[t.guild] == 0 ==> expiry_send(s, t) is None,
        expiry_sends(s, t.guild) ==> expiry_send(s, t) == Some(
            SendRequestModel { channel: t.channel, text: t.text },
        ),
{
}

/// The leave message is sent exactly on a one-to-zero occupancy transition
/// of a guild with notifications on and a channel hooked, and it goes to
/// that channel with that guild's leave text.  The one further gate: no
/// debounce cycle may be running for the guild, which this law assumes;
/// while one runs, the leave message is suppressed.
pub proof fn lemma_leave_message_iff(s: ProcessorModel, guild: u64)
    requires
        !gate_armed(s.gates, guild),
    ensures
        handle_send(s, guild, true) is Some <==> {
            &&& s.counts.contains_key(guild)
            &&& s.counts[guild] == 1
            &&& effective_settings(s, guild).enable
            &&& effective_settings(s, guild).hooked_channel is Some
        },
        handle_send(s, guild, true) matches Some(m) ==> {
            &&& m.channel == effective_settings(s, guild).hooked_channel->0
            &&& m.text == effective_settings(s, guild).leave_message
            &&& handle_step(s, guild, true).counts[guild] == 0
        },
{
}

/// The only-if direction without any assumption: whatever the state, a
/// message sent by `handle` is a leave message, sent on the last member's
/// leave with notifications on and a channel hooked, and occupancy is zero
/// afterwards.
pub proof fn lemma_send_only_on_last_leave(s: ProcessorModel, guild: u64, member_left: bool)
    ensures
        handle_send(s, guild, member_left) is Some ==> {
            &&& member_left
            &&& s.counts.contains_key(guild)
            &&& s.counts[guild] == 1
            &&& effective_settings(s, guild).enable
            &&& effective_settings(s, guild).hooked_channel is Some
            &&& !gate_armed(s.gates, guild)
            &&& handle_step(s, guild, member_left).counts[guild] == 0
        },
{
}

/// Disabling notifications suppresses both the leave message and the
/// deferred join check, but does not stop occupancy counting: the count
/// table changes exactly as it would otherwise.
pub proof fn lemma_disabled_suppresses_messages(s: ProcessorModel, guild: u64, member_left: bool)
    requires
        !effective_settings(s, guild).enable,
    ensures
        handle_send(s, guild, member_left) is None,
        handle_schedule(s, guild, member_left) is None,
        handle_step(s, guild, member_left).counts == counts_after_handle(
            s.counts,
            guild,
            member_left,
        ),
{
}

/// Occupancy counting consults neither the configuration nor the gates:
/// two states with the same count table count alike under every event.
pub proof fn lemma_counting_ignores_configuration(
    s1: ProcessorModel,
    s2: ProcessorModel,
    guild: u64,
    member_left: bool,
)
    requires
        s1.counts == s2.counts,
    ensures
        handle_step(s1, guild, member_left).counts == handle_step(s2, guild, member_left).counts,
{
}

} // verus!
