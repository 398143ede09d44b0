//! Library-wide laws: proof functions stating the guarantees that relate
//! several operations, proved from the same spec functions the operations'
//! own contracts use.

use crate::countdown::Countdown;
use crate::force::ForceId;
use crate::input::InputBuffer;
use crate::input::PlayerAction;
use crate::input::action_press;
use crate::input::action_release;
use crate::jumper::JUMP_FORCE_TRIPLE;
use crate::jumper::JUMP_WINDOW_US;
use crate::jumper::JumpStage;
use crate::jumper::Jumper;
use crate::jumper::jumper_land;
use crate::jumper::jumper_tick;
use crate::jumper::spec_stage_force;
use crate::jumper::stage_level;
use crate::ledger::Entry;
use crate::ledger::Forces;
use vstd::prelude::*;

verus! {

/// The total of a sequence of tick lengths, in microseconds.
pub open spec fn total_us(dts: Seq<u64>) -> int
    decreases dts.len(),
{
    if dts.len() == 0 {
        0
    } else {
        dts[0] + total_us(dts.drop_first())
    }
}

/// The ledger after repeating, once per tick length in `dts`: request
/// removal of `force_id`, then tick the whole ledger.
pub open spec fn remove_each_tick(m: Forces, force_id: ForceId, dts: Seq<u64>) -> Forces
    decreases dts.len(),
{
    if dts.len() == 0 {
        m
    } else {
        remove_each_tick(m.remove_spec(force_id).tick_spec(dts[0]), force_id, dts.drop_first())
    }
}

/// Replacing a slot and reading it back gives the replacement.
proof fn lemma_entry_of_with_entry(m: Forces, force_id: ForceId, e: Option<Entry>)
    ensures
        m.with_entry(force_id, e).entry(force_id) == e,
{
    match force_id {
        ForceId::Gravity => {},
        ForceId::Run => {},
        ForceId::Jump => {},
        ForceId::Wind => {},
        ForceId::Slide => {},
        ForceId::Skid => {},
        ForceId::Drift => {},
        ForceId::Slope => {},
    }
}

/// A ledger tick acts on each slot independently.
proof fn lemma_entry_of_tick(m: Forces, force_id: ForceId, delta_us: u64)
    ensures
        m.tick_spec(delta_us).entry(force_id) == crate::ledger::slot_tick(
            m.entry(force_id),
            delta_us,
        ),
{
    match force_id {
        ForceId::Gravity => {},
        ForceId::Run => {},
        ForceId::Jump => {},
        ForceId::Wind => {},
        ForceId::Slide => {},
        ForceId::Skid => {},
        ForceId::Drift => {},
        ForceId::Slope => {},
    }
}

/// A `Manual` entry whose countdown has not yet finished survives having its
/// removal requested on every tick, for as long as the ticked time stays
/// short of the countdown's remaining time; its vector is untouched
/// throughout.
pub proof fn lemma_manual_removal_deferred(
    m: Forces,
    force_id: ForceId,
    e: Entry,
    t: Countdown,
    dts: Seq<u64>,
)
    requires
        m.entry(force_id) == Some(e),
        e.force.decay_type is Manual,
        e.force.expiration_timer == Some(t),
        t.wf(),
        total_us(dts) < t.spec_remaining(),
    ensures
        remove_each_tick(m, force_id, dts).entry(force_id) matches Some(e2)
            && e2.force.applied_force == e.force.applied_force && e2.force.decay_type is Manual,
    decreases dts.len(),
{
    if dts.len() == 0 {
    } else {
        let dt = dts[0];
        assert(0 <= total_us(dts.drop_first())) by {
            lemma_total_us_nonneg(dts.drop_first());
        }
        let m1 = m.remove_spec(force_id);
        lemma_entry_of_with_entry(m, force_id, crate::ledger::slot_remove(m.entry(force_id)));
        let e1 = Entry { scheduled_to_remove: true, ..e };
        assert(m1.entry(force_id) == Some(e1));
        let m2 = m1.tick_spec(dt);
        lemma_entry_of_tick(m1, force_id, dt);
        let t2 = crate::countdown::countdown_tick(t, dt);
        let e2 = Entry {
            force: crate::force::force_tick(e1.force, dt),
            scheduled_to_remove: true,
        };
        assert(m2.entry(force_id) == Some(e2));
        lemma_manual_removal_deferred(m2, force_id, e2, t2, dts.drop_first());
    }
}

/// Once removal of an unfinished `Manual` entry has been requested, the
/// entry leaves on exactly the tick in which its countdown finishes.
pub proof fn lemma_scheduled_removal_completes(
    m: Forces,
    force_id: ForceId,
    e: Entry,
    t: Countdown,
    delta_us: u64,
)
    requires
        m.entry(force_id) == Some(e),
        e.force.decay_type is Manual,
        e.force.expiration_timer == Some(t),
        t.wf(),
        delta_us >= t.spec_remaining(),
    ensures
        m.remove_spec(force_id).tick_spec(delta_us).entry(force_id) is None,
{
    let m1 = m.remove_spec(force_id);
    lemma_entry_of_with_entry(m, force_id, crate::ledger::slot_remove(m.entry(force_id)));
    lemma_entry_of_tick(m1, force_id, delta_us);
}

/// The jump stage tracker after a sequence of grounded ticks.
pub open spec fn jumper_ticks(j: Jumper, dts: Seq<u64>) -> Jumper
    decreases dts.len(),
{
    if dts.len() == 0 {
        j
    } else {
        jumper_ticks(jumper_tick(j, dts[0]), dts.drop_first())
    }
}

/// A landing while the window still runs advances the stage exactly one
/// level (`Triple`, which has no higher level, returns to `Single`); a
/// landing after the window has lapsed resets the stage to `Single` and
/// does not advance it on that same landing.
pub proof fn lemma_landing_advances_one_level(j: Jumper)
    ensures
        !j.increase_timer.spec_finished() && !(j.stage is Triple) ==> stage_level(
            jumper_land(j).stage,
        ) == stage_level(j.stage) + 1,
        !j.increase_timer.spec_finished() && j.stage is Triple ==> jumper_land(j).stage
            is Single,
        j.increase_timer.spec_finished() ==> jumper_land(j).stage is Single,
{
}

/// A tracker that sits at `Single` with a lapsed window is unmoved by
/// further grounded ticks.
proof fn lemma_idle_jumper_fixed(j: Jumper, dts: Seq<u64>)
    requires
        j.stage is Single,
        j.increase_timer.spec_finished(),
        j.wf(),
    ensures
        jumper_ticks(j, dts) == j,
    decreases dts.len(),
{
    if dts.len() == 0 {
    } else {
        assert(jumper_tick(j, dts[0]) == j);
        lemma_idle_jumper_fixed(j, dts.drop_first());
    }
}

/// Grounded ticks that stay short of the window's remaining time leave the
/// stage alone and only consume window time.
proof fn lemma_short_gap_keeps_stage(j: Jumper, dts: Seq<u64>)
    requires
        j.wf(),
        total_us(dts) < j.increase_timer.spec_remaining(),
    ensures
        ({
            let r = jumper_ticks(j, dts);
            &&& r.stage == j.stage
            &&& r.wf()
            &&& r.increase_timer.spec_remaining() == j.increase_timer.spec_remaining() - total_us(
                dts,
            )
        }),
    decreases dts.len(),
{
    if dts.len() == 0 {
    } else {
        assert(0 <= total_us(dts.drop_first())) by {
            lemma_total_us_nonneg(dts.drop_first());
        }
        lemma_short_gap_keeps_stage(jumper_tick(j, dts[0]), dts.drop_first());
    }
}

/// Once the window has lapsed, a grounded tick forces the stage back to
/// `Single`, and it stays there: a gap of grounded time at least as long as
/// the window's remaining time fully resets the cadence.
pub proof fn lemma_long_gap_resets(j: Jumper, dts: Seq<u64>)
    requires
        j.wf(),
        dts.len() >= 1,
        dts[0] >= j.increase_timer.spec_remaining(),
    ensures
        jumper_ticks(j, dts).stage is Single,
        jumper_ticks(j, dts).increase_timer.spec_finished(),
    decreases dts.len(),
{
    let j1 = jumper_tick(j, dts[0]);
    assert(j1.stage is Single && j1.increase_timer.spec_finished());
    lemma_idle_jumper_fixed(j1, dts.drop_first());
}

/// The full landing cadence.  Starting from a fresh tracker (`Single`, no
/// window running): the first landing restarts the cadence, and two more
/// landings, each after less than the window of grounded time, escalate to
/// `Double` and then `Triple`, so a fourth jump takes off with `Triple`'s
/// magnitude; the landing of that fourth jump returns the cadence to
/// `Single`.
pub proof fn lemma_landing_cadence(j: Jumper, gap1: Seq<u64>, gap2: Seq<u64>)
    requires
        j.wf(),
        j.stage is Single,
        j.increase_timer.spec_finished(),
        total_us(gap1) < JUMP_WINDOW_US,
        total_us(gap2) < JUMP_WINDOW_US,
    ensures
        ({
            let j1 = jumper_land(j);
            let j2 = jumper_land(jumper_ticks(j1, gap1));
            let j3 = jumper_land(jumper_ticks(j2, gap2));
            &&& j1.stage is Single
            &&& j2.stage is Double
            &&& j3.stage is Triple
            &&& spec_stage_force(j3.stage) == JUMP_FORCE_TRIPLE
            &&& jumper_land(j3).stage is Single
        }),
{
    let j1 = jumper_land(j);
    lemma_short_gap_keeps_stage(j1, gap1);
    let j2 = jumper_land(jumper_ticks(j1, gap1));
    lemma_short_gap_keeps_stage(j2, gap2);
}

/// Pressing and then releasing an action, with no buffer tick in between,
/// still leaves the action reading as just pressed: the press stays
/// consumable until a tick advances its buffering window to stale.
pub proof fn lemma_press_release_stays_fresh(b: InputBuffer, action: PlayerAction)
    ensures
        ({
            let after = b.with_state(
                action,
                action_release(action_press(b.action_state(action))),
            );
            after.action_state(action).spec_just_pressed()
        }),
{
    match action {
        PlayerAction::Jump => {},
        PlayerAction::Move => {},
        PlayerAction::Crouch => {},
    }
}

/// Tick totals are never negative.
proof fn lemma_total_us_nonneg(dts: Seq<u64>)
    ensures
        0 <= total_us(dts),
    decreases dts.len(),
{
    if dts.len() == 0 {
    } else {
        lemma_total_us_nonneg(dts.drop_first());
    }
}

} // verus!
