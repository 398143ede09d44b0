//! The force ledger: a registry of at most one force per identifier.
//!
//! Every tick the pipeline's rules insert, accumulate into and remove
//! entries; the ledger is then ticked once (advancing and sweeping expired
//! entries) and combined into the single displacement vector for the tick.
//!
//! Removal of a `Manual` entry whose countdown has not yet finished is
//! deferred: the entry is only marked `scheduled_to_remove`, and the sweep
//! drops exactly the entries that are simultaneously finished and scheduled.
//! A `Manual` entry without a countdown counts as finished, so it is removed
//! the moment removal is requested and never by the sweep alone.

use crate::force::Force;
use crate::force::ForceDecayType;
use crate::force::ForceId;
use crate::force::force_tick;
use crate::vec3::COMPONENT_CAP;
use crate::vec3::Vec3;
use vstd::prelude::*;

verus! {

/// A ledger slot: the stored force, and whether its removal is pending.
#[derive(Clone, Copy, PartialEq, Eq, Structural, Debug)]
pub struct Entry {
    pub force: Force,
    pub scheduled_to_remove: bool,
}

/// The per-avatar force ledger: one optional entry per identifier.
#[derive(Clone, Copy, PartialEq, Eq, Structural, Debug)]
pub struct Forces {
    pub gravity: Option<Entry>,
    pub run: Option<Entry>,
    pub jump: Option<Entry>,
    pub wind: Option<Entry>,
    pub slide: Option<Entry>,
    pub skid: Option<Entry>,
    pub drift: Option<Entry>,
    pub slope: Option<Entry>,
}

/// The vector component contributed by a slot: zero when the slot is empty.
pub open spec fn slot_x(s: Option<Entry>) -> int {
    match s {
        Some(e) => e.force.applied_force.x as int,
        None => 0,
    }
}

/// See [`slot_x`].
pub open spec fn slot_y(s: Option<Entry>) -> int {
    match s {
        Some(e) => e.force.applied_force.y as int,
        None => 0,
    }
}

/// See [`slot_x`].
pub open spec fn slot_z(s: Option<Entry>) -> int {
    match s {
        Some(e) => e.force.applied_force.z as int,
        None => 0,
    }
}

/// A slot after removal has been requested for it: a finished entry (or one
/// with no countdown at all, which counts as finished) leaves at once, an
/// unfinished one is only marked as scheduled, and an empty slot stays empty.
pub open spec fn slot_remove(s: Option<Entry>) -> Option<Entry> {
    match s {
        Some(e) => if e.force.spec_finished() {
            None
        } else {
            Some(Entry { scheduled_to_remove: true, ..e })
        },
        None => None,
    }
}

/// A slot after one ledger tick of `delta_us`: the entry's countdown
/// advances, then the entry is swept if it is finished and either decays
/// automatically or has been scheduled for removal.
pub open spec fn slot_tick(s: Option<Entry>, delta_us: u64) -> Option<Entry> {
    match s {
        Some(e) => {
            let f = force_tick(e.force, delta_us);
            if f.spec_finished() && (f.decay_type is Automatic || e.scheduled_to_remove) {
                None
            } else {
                Some(Entry { force: f, ..e })
            }
        },
        None => None,
    }
}

impl Forces {
    /// The slot for `force_id`.
    pub open spec fn entry(self, force_id: ForceId) -> Option<Entry> {
        match force_id {
            ForceId::Gravity => self.gravity,
            ForceId::Run => self.run,
            ForceId::Jump => self.jump,
            ForceId::Wind => self.wind,
            ForceId::Slide => self.slide,
            ForceId::Skid => self.skid,
            ForceId::Drift => self.drift,
            ForceId::Slope => self.slope,
        }
    }

    /// The ledger with the slot for `force_id` replaced by `e`.
    pub open spec fn with_entry(self, force_id: ForceId, e: Option<Entry>) -> Forces {
        match force_id {
            ForceId::Gravity => Forces { gravity: e, ..self },
            ForceId::Run => Forces { run: e, ..self },
            ForceId::Jump => Forces { jump: e, ..self },
            ForceId::Wind => Forces { wind: e, ..self },
            ForceId::Slide => Forces { slide: e, ..self },
            ForceId::Skid => Forces { skid: e, ..self },
            ForceId::Drift => Forces { drift: e, ..self },
            ForceId::Slope => Forces { slope: e, ..self },
        }
    }

    /// Every stored force is well formed (vector within the component cap,
    /// countdown elapsed time within its duration).
    pub open spec fn wf(self) -> bool {
        &&& (self.gravity matches Some(e) ==> e.force.wf())
        &&& (self.run matches Some(e) ==> e.force.wf())
        &&& (self.jump matches Some(e) ==> e.force.wf())
        &&& (self.wind matches Some(e) ==> e.force.wf())
        &&& (self.slide matches Some(e) ==> e.force.wf())
        &&& (self.skid matches Some(e) ==> e.force.wf())
        &&& (self.drift matches Some(e) ==> e.force.wf())
        &&& (self.slope matches Some(e) ==> e.force.wf())
    }

    /// The number of occupied slots.
    pub open spec fn spec_len(self) -> int {
        (if self.gravity is Some { 1int } else { 0int })
            + (if self.run is Some { 1int } else { 0int })
            + (if self.jump is Some { 1int } else { 0int })
            + (if self.wind is Some { 1int } else { 0int })
            + (if self.slide is Some { 1int } else { 0int })
            + (if self.skid is Some { 1int } else { 0int })
            + (if self.drift is Some { 1int } else { 0int })
            + (if self.slope is Some { 1int } else { 0int })
    }

    /// The x component of the vector sum of all present entries.
    pub open spec fn combined_x(self) -> int {
        slot_x(self.gravity) + slot_x(self.run) + slot_x(self.jump) + slot_x(self.wind) + slot_x(
            self.slide,
        ) + slot_x(self.skid) + slot_x(self.drift) + slot_x(self.slope)
    }

    /// The y component of the vector sum of all present entries.
    pub open spec fn combined_y(self) -> int {
        slot_y(self.gravity) + slot_y(self.run) + slot_y(self.jump) + slot_y(self.wind) + slot_y(
            self.slide,
        ) + slot_y(self.skid) + slot_y(self.drift) + slot_y(self.slope)
    }

    /// The z component of the vector sum of all present entries.
    pub open spec fn combined_z(self) -> int {
        slot_z(self.gravity) + slot_z(self.run) + slot_z(self.jump) + slot_z(self.wind) + slot_z(
            self.slide,
        ) + slot_z(self.skid) + slot_z(self.drift) + slot_z(self.slope)
    }

    /// The whole ledger after `amount` has been accumulated onto
    /// `force_id`: an occupied slot's vector grows in place, an empty slot
    /// becomes a fresh `Manual`, non-expiring entry equal to `amount`.
    pub open spec fn add_to_spec(self, force_id: ForceId, amount: Vec3) -> Forces {
        match self.entry(force_id) {
            Some(e) => self.with_entry(
                force_id,
                Some(
                    Entry {
                        force: Force {
                            applied_force: crate::vec3::vec_add(e.force.applied_force, amount),
                            ..e.force
                        },
                        ..e
                    },
                ),
            ),
            None => self.with_entry(
                force_id,
                Some(
                    Entry {
                        force: Force {
                            applied_force: amount,
                            expiration_timer: None,
                            decay_type: ForceDecayType::Manual,
                        },
                        scheduled_to_remove: false,
                    },
                ),
            ),
        }
    }

    /// The whole ledger after removal has been requested for `force_id`.
    pub open spec fn remove_spec(self, force_id: ForceId) -> Forces {
        self.with_entry(force_id, slot_remove(self.entry(force_id)))
    }

    /// The whole ledger after one tick of `delta_us`.
    pub open spec fn tick_spec(self, delta_us: u64) -> Forces {
        Forces {
            gravity: slot_tick(self.gravity, delta_us),
            run: slot_tick(self.run, delta_us),
            jump: slot_tick(self.jump, delta_us),
            wind: slot_tick(self.wind, delta_us),
            slide: slot_tick(self.slide, delta_us),
            skid: slot_tick(self.skid, delta_us),
            drift: slot_tick(self.drift, delta_us),
            slope: slot_tick(self.slope, delta_us),
        }
    }

    /// A shared reference to the slot for `force_id`.
    fn slot(&self, force_id: ForceId) -> (r: &Option<Entry>)
        ensures
            *r == self.entry(force_id),
    {
        match force_id {
            ForceId::Gravity => &self.gravity,
            ForceId::Run => &self.run,
            ForceId::Jump => &self.jump,
            ForceId::Wind => &self.wind,
            ForceId::Slide => &self.slide,
            ForceId::Skid => &self.skid,
            ForceId::Drift => &self.drift,
            ForceId::Slope => &self.slope,
        }
    }

    /// A mutable reference to the slot for `force_id`; the rest of the
    /// ledger is untouched.
    fn slot_mut(&mut self, force_id: ForceId) -> (r: &mut Option<Entry>)
        ensures
            *r == old(self).entry(force_id),
            *final(self) == old(self).with_entry(force_id, *final(r)),
    {
        match force_id {
            ForceId::Gravity => &mut self.gravity,
            ForceId::Run => &mut self.run,
            ForceId::Jump => &mut self.jump,
            ForceId::Wind => &mut self.wind,
            ForceId::Slide => &mut self.slide,
            ForceId::Skid => &mut self.skid,
            ForceId::Drift => &mut self.drift,
            ForceId::Slope => &mut self.slope,
        }
    }

    /// The vector stored for `force_id`, if the slot is occupied.
    pub fn get_vector(&self, force_id: ForceId) -> (r: Option<Vec3>)
        ensures
            r == match self.entry(force_id) {
                Some(e) => Some(e.force.applied_force),
                None => None::<Vec3>,
            },
    {
        match self.slot(force_id) {
            Some(e) => Some(e.force.applied_force),
            None => None,
        }
    }

    /// Inserts or overwrites the entry for `force_id`.  The fresh entry is
    /// not scheduled for removal, so re-adding also clears a pending
    /// deferred removal.
    pub fn add(&mut self, force_id: ForceId, force: Force)
        requires
            force.wf(),
        ensures
            *final(self) == old(self).with_entry(
                force_id,
                Some(Entry { force, scheduled_to_remove: false }),
            ),
    {
        let slot = self.slot_mut(force_id);
        *slot = Some(Entry { force, scheduled_to_remove: false });
    }

    /// The number of occupied slots.
    pub fn length(&self) -> (r: usize)
        ensures
            r == self.spec_len(),
    {
        let mut n: usize = 0;
        if self.gravity.is_some() {
            n = n + 1;
        }
        if self.run.is_some() {
            n = n + 1;
        }
        if self.jump.is_some() {
            n = n + 1;
        }
        if self.wind.is_some() {
            n = n + 1;
        }
        if self.slide.is_some() {
            n = n + 1;
        }
        if self.skid.is_some() {
            n = n + 1;
        }
        if self.drift.is_some() {
            n = n + 1;
        }
        if self.slope.is_some() {
            n = n + 1;
        }
        n
    }

    /// Adds `amount` onto the vector stored for `force_id` in place; an
    /// absent entry becomes a fresh `Manual`, non-expiring entry equal to
    /// `amount`.
    pub fn add_to(&mut self, force_id: ForceId, amount: Vec3)
        requires
            match old(self).entry(force_id) {
                Some(e) => (Vec3 {
                    x: (e.force.applied_force.x + amount.x) as i64,
                    y: (e.force.applied_force.y + amount.y) as i64,
                    z: (e.force.applied_force.z + amount.z) as i64,
                }).bounded(COMPONENT_CAP as int) && e.force.applied_force.x + amount.x
                    == (e.force.applied_force.x + amount.x) as i64 && e.force.applied_force.y
                    + amount.y == (e.force.applied_force.y + amount.y) as i64
                    && e.force.applied_force.z + amount.z == (e.force.applied_force.z + amount.z)
                    as i64,
                None => amount.bounded(COMPONENT_CAP as int),
            },
        ensures
            *final(self) == old(self).add_to_spec(force_id, amount),
    {
        let slot = self.slot_mut(force_id);
        match slot.as_mut() {
            Some(e) => {
                e.force.add_force(amount);
            },
            None => {
                *slot = Some(
                    Entry {
                        force: Force::new(amount, None, ForceDecayType::Manual),
                        scheduled_to_remove: false,
                    },
                );
            },
        }
    }

    /// Requests removal of the entry for `force_id`.  A finished entry (or
    /// one with no countdown) is removed at once; an unfinished one is only
    /// scheduled, and leaves on the tick in which its countdown finishes.
    /// Safe and idempotent on an empty slot.
    pub fn remove(&mut self, force_id: ForceId)
        ensures
            *final(self) == old(self).remove_spec(force_id),
    {
        let slot = self.slot_mut(force_id);
        let can_remove: bool = match &*slot {
            Some(e) => e.force.finished(),
            None => true,
        };
        if can_remove {
            *slot = None;
        } else {
            match slot.as_mut() {
                Some(e) => {
                    e.scheduled_to_remove = true;
                },
                None => {},
            }
        }
    }

    /// True iff a force is stored under `force_id`.
    pub fn has_key(&self, force_id: ForceId) -> (r: bool)
        ensures
            r == (self.entry(force_id) is Some),
    {
        self.slot(force_id).is_some()
    }

    /// Empties every slot.
    pub fn reset(&mut self)
        ensures
            *final(self) == (Forces {
                gravity: None,
                run: None,
                jump: None,
                wind: None,
                slide: None,
                skid: None,
                drift: None,
                slope: None,
            }),
    {
        self.gravity = None;
        self.run = None;
        self.jump = None;
        self.wind = None;
        self.slide = None;
        self.skid = None;
        self.drift = None;
        self.slope = None;
    }

    /// The vector sum of all present entries' vectors.
    #[verifier::rlimit(50)]
    pub fn get_combined_force(&self) -> (r: Vec3)
        requires
            self.wf(),
        ensures
            r.x == self.combined_x(),
            r.y == self.combined_y(),
            r.z == self.combined_z(),
    {
        let x: i64 = entry_x(&self.gravity) + entry_x(&self.run) + entry_x(&self.jump) + entry_x(
            &self.wind,
        ) + entry_x(&self.slide) + entry_x(&self.skid) + entry_x(&self.drift) + entry_x(
            &self.slope,
        );
        let y: i64 = entry_y(&self.gravity) + entry_y(&self.run) + entry_y(&self.jump) + entry_y(
            &self.wind,
        ) + entry_y(&self.slide) + entry_y(&self.skid) + entry_y(&self.drift) + entry_y(
            &self.slope,
        );
        let z: i64 = entry_z(&self.gravity) + entry_z(&self.run) + entry_z(&self.jump) + entry_z(
            &self.wind,
        ) + entry_z(&self.slide) + entry_z(&self.skid) + entry_z(&self.drift) + entry_z(
            &self.slope,
        );
        Vec3 { x, y, z }
    }

    /// Advances every entry's countdown by `delta_us`, then sweeps: an
    /// entry that is finished and decays automatically leaves, and so does
    /// one that is finished and scheduled for removal.  Runs once per fixed
    /// tick, after all force-producing rules.
    pub fn tick(&mut self, delta_us: u64)
        requires
            old(self).wf(),
        ensures
            *final(self) == old(self).tick_spec(delta_us),
            final(self).wf(),
    {
        tick_slot(&mut self.gravity, delta_us);
        tick_slot(&mut self.run, delta_us);
        tick_slot(&mut self.jump, delta_us);
        tick_slot(&mut self.wind, delta_us);
        tick_slot(&mut self.slide, delta_us);
        tick_slot(&mut self.skid, delta_us);
        tick_slot(&mut self.drift, delta_us);
        tick_slot(&mut self.slope, delta_us);
    }
}

impl Default for Forces {
    /// The empty ledger.
    fn default() -> (r: Forces)
        ensures
            r == (Forces {
                gravity: None,
                run: None,
                jump: None,
                wind: None,
                slide: None,
                skid: None,
                drift: None,
                slope: None,
            }),
    {
        Forces {
            gravity: None,
            run: None,
            jump: None,
            wind: None,
            slide: None,
            skid: None,
            drift: None,
            slope: None,
        }
    }
}

/// A well-formed ledger's combined force is bounded by one component cap
/// per slot.
pub proof fn lemma_combined_bounded(m: Forces)
    requires
        m.wf(),
    ensures
        -8 * (COMPONENT_CAP as int) <= m.combined_x() <= 8 * (COMPONENT_CAP as int),
        -8 * (COMPONENT_CAP as int) <= m.combined_y() <= 8 * (COMPONENT_CAP as int),
        -8 * (COMPONENT_CAP as int) <= m.combined_z() <= 8 * (COMPONENT_CAP as int),
{
}

/// The x component a slot contributes to the combined force.
fn entry_x(slot: &Option<Entry>) -> (r: i64)
    requires
        *slot matches Some(e) ==> e.force.wf(),
    ensures
        r == slot_x(*slot),
        -COMPONENT_CAP <= r <= COMPONENT_CAP,
{
    match slot {
        Some(e) => e.force.applied_force.x,
        None => 0,
    }
}

/// The y component a slot contributes to the combined force.
fn entry_y(slot: &Option<Entry>) -> (r: i64)
    requires
        *slot matches Some(e) ==> e.force.wf(),
    ensures
        r == slot_y(*slot),
        -COMPONENT_CAP <= r <= COMPONENT_CAP,
{
    match slot {
        Some(e) => e.force.applied_force.y,
        None => 0,
    }
}

/// The z component a slot contributes to the combined force.
fn entry_z(slot: &Option<Entry>) -> (r: i64)
    requires
        *slot matches Some(e) ==> e.force.wf(),
    ensures
        r == slot_z(*slot),
        -COMPONENT_CAP <= r <= COMPONENT_CAP,
{
    match slot {
        Some(e) => e.force.applied_force.z,
        None => 0,
    }
}

/// Advances and sweeps one slot, as [`slot_tick`] describes.
fn tick_slot(slot: &mut Option<Entry>, delta_us: u64)
    requires
        *old(slot) matches Some(e) ==> e.force.wf(),
    ensures
        *final(slot) == slot_tick(*old(slot), delta_us),
        *final(slot) matches Some(e) ==> e.force.wf(),
{
    let swept: bool = match slot.as_mut() {
        Some(e) => {
            e.force.tick(delta_us);
            e.force.finished() && (matches!(e.force.decay_type, ForceDecayType::Automatic)
                || e.scheduled_to_remove)
        },
        None => false,
    };
    if swept {
        *slot = None;
    }
}

} // verus!
