//! The entity store and the three movement systems on it.
//!
//! An arena of controllable entities indexed by handle, together with the
//! two singleton resources: the keybindings and the fixed-rate clock. The
//! systems mutate exactly the attribute they own: input sampling writes
//! intents, the resolver writes velocities, the integrator writes positions.

use vstd::prelude::*;

use crate::bundles::PlayerBundle;
use crate::component::{MoveInput, Velocity};
use crate::input::{sample_intent, sampled_intent, PlayerKeybindings};
use crate::math::Vec3;
use crate::movement::{
    resolve_velocity, resolved_velocity, step_position, stepped_position,
};

verus! {

/// The fixed-rate clock: a configured frequency, the accumulated fraction
/// of a step not yet consumed, how many fixed steps have run (their count
/// times the step duration is the accumulated fixed-phase elapsed time),
/// and whether a first step has been latched — the per-step delta is
/// `1/freq_hz` seconds once latched and zero before.
#[derive(Clone, Copy, Debug, PartialEq, Eq, Structural)]
pub struct FixedClock {
    pub freq_hz: u32,
    pub overstep_ns: u64,
    pub steps_run: u64,
    pub latched: bool,
}

impl FixedClock {
    /// Nanoseconds per fixed step at this frequency (truncated).
    pub open spec fn step_ns(self) -> int {
        1_000_000_000int / (self.freq_hz as int)
    }

    /// Numerator of the per-step delta, in steps: zero until the first
    /// fixed step is latched, one from then on. The delta in seconds is
    /// `dt_num() / freq_hz`.
    pub open spec fn dt_num(self) -> int {
        if self.latched {
            1
        } else {
            0
        }
    }

    /// The clock's configuration and accumulator are in range.
    pub open spec fn wf(self) -> bool {
        1 <= self.freq_hz <= 1_000_000_000 && self.overstep_ns < self.step_ns()
    }

    /// A fresh clock at the given frequency: nothing accumulated, nothing
    /// latched, so the reported delta is zero until the first step runs.
    pub fn from_hz(freq_hz: u32) -> (c: FixedClock)
        requires
            1 <= freq_hz <= 1_000_000_000,
        ensures
            c == (FixedClock { freq_hz, overstep_ns: 0, steps_run: 0, latched: false }),
            c.wf(),
    {
        let c = FixedClock { freq_hz, overstep_ns: 0, steps_run: 0, latched: false };
        proof {
            vstd::arithmetic::div_mod::lemma_div_pos_is_pos(1_000_000_000int, freq_hz as int);
            vstd::arithmetic::div_mod::lemma_div_non_zero(1_000_000_000int, freq_hz as int);
        }
        c
    }

    /// Add a frame's wall-clock time to the accumulator and consume every
    /// whole step it now holds, returning how many fixed steps to run and
    /// carrying the remainder forward.
    pub fn accumulate(&mut self, frame_ns: u64) -> (steps: u64)
        requires
            old(self).wf(),
            old(self).overstep_ns + frame_ns <= u64::MAX,
        ensures
            final(self).wf(),
            steps == (old(self).overstep_ns + frame_ns) / old(self).step_ns(),
            final(self).overstep_ns == (old(self).overstep_ns + frame_ns) % old(self).step_ns(),
            final(self).freq_hz == old(self).freq_hz,
            final(self).steps_run == old(self).steps_run,
            final(self).latched == old(self).latched,
    {
        let total = self.overstep_ns + frame_ns;
        let step = 1_000_000_000u64 / (self.freq_hz as u64);
        let steps = total / step;
        self.overstep_ns = total % step;
        steps
    }

    /// Latch one fixed step: from now on the reported delta is a full step,
    /// and the count of steps run grows (clamping at its range's end).
    pub fn latch_step(&mut self)
        requires
            old(self).wf(),
        ensures
            final(self).wf(),
            final(self).freq_hz == old(self).freq_hz,
            final(self).overstep_ns == old(self).overstep_ns,
            final(self).latched,
            final(self).steps_run == (if old(self).steps_run < u64::MAX {
                old(self).steps_run + 1
            } else {
                u64::MAX as int
            }),
    {
        self.latched = true;
        if self.steps_run < u64::MAX {
            self.steps_run = self.steps_run + 1;
        }
    }
}

/// `e` with its movement intent replaced.
pub open spec fn with_input(e: PlayerBundle, dir: Vec3) -> PlayerBundle {
    PlayerBundle {
        player: e.player,
        speed: e.speed,
        input: MoveInput(dir),
        velocity: e.velocity,
        transform: e.transform,
    }
}

/// `e` with its velocity replaced.
pub open spec fn with_velocity(e: PlayerBundle, v: Vec3) -> PlayerBundle {
    PlayerBundle {
        player: e.player,
        speed: e.speed,
        input: e.input,
        velocity: Velocity(v),
        transform: e.transform,
    }
}

/// `e` with its position replaced.
pub open spec fn with_translation(e: PlayerBundle, p: Vec3) -> PlayerBundle {
    PlayerBundle {
        player: e.player,
        speed: e.speed,
        input: e.input,
        velocity: e.velocity,
        transform: crate::component::Transform { translation: p, rotation: e.transform.rotation },
    }
}

/// `e` after the velocity resolver: its velocity is the pure function of
/// its current intent, speed and orientation, and nothing else moves.
pub open spec fn resolved_entity(e: PlayerBundle) -> PlayerBundle {
    with_velocity(e, resolved_velocity(e.input, e.speed, e.transform.rotation))
}

/// `e` after the integrator under a step of `num/den` seconds.
pub open spec fn integrated_entity(e: PlayerBundle, num: int, den: int) -> PlayerBundle {
    with_translation(e, stepped_position(e.transform.translation, e.velocity.0, num, den))
}

/// The entity store: an arena of controllable entities indexed by handle,
/// plus the two singleton resources.
pub struct World {
    pub entities: Vec<PlayerBundle>,
    pub keybindings: Option<PlayerKeybindings>,
    pub clock: FixedClock,
}

impl World {
    /// Every entity's attributes and the clock are within range.
    pub open spec fn wf(self) -> bool {
        self.clock.wf() && (forall|i: int|
            0 <= i < self.entities@.len() ==> #[trigger] self.entities@[i].wf())
    }

    /// An empty world: no entities, no keybindings, a fresh clock at the
    /// given fixed frequency.
    pub fn new(freq_hz: u32) -> (w: World)
        requires
            1 <= freq_hz <= 1_000_000_000,
        ensures
            w.entities@.len() == 0,
            w.keybindings is None,
            w.clock == (FixedClock { freq_hz, overstep_ns: 0, steps_run: 0, latched: false }),
            w.wf(),
    {
        World { entities: Vec::new(), keybindings: None, clock: FixedClock::from_hz(freq_hz) }
    }

    /// Add an entity to the store; its handle is the returned index.
    pub fn spawn(&mut self, bundle: PlayerBundle) -> (handle: usize)
        requires
            old(self).wf(),
            bundle.wf(),
        ensures
            final(self).wf(),
            final(self).entities@ == old(self).entities@.push(bundle),
            handle == old(self).entities@.len(),
            final(self).keybindings == old(self).keybindings,
            final(self).clock == old(self).clock,
    {
        let handle = self.entities.len();
        self.entities.push(bundle);
        handle
    }
}

/// Variable-phase system: sample the held keys into every entity's movement
/// intent. When the keybindings resource is absent the system performs no
/// writes at all — a soft missing dependency, not an error.
pub fn read_player_input(w: &mut World, held: &Vec<u32>)
    requires
        old(w).wf(),
        held@.no_duplicates(),
    ensures
        final(w).wf(),
        final(w).keybindings == old(w).keybindings,
        final(w).clock == old(w).clock,
        final(w).entities@.len() == old(w).entities@.len(),
        old(w).keybindings is None ==> final(w).entities@ == old(w).entities@,
        old(w).keybindings matches Some(kb) ==> forall|i: int|
            0 <= i < final(w).entities@.len() ==> final(w).entities@[i] == with_input(
                #[trigger] old(w).entities@[i],
                sampled_intent(kb, held@),
            ),
{
    let kb_opt = w.keybindings;
    match kb_opt {
        None => {
        },
        Some(kb) => {
            let dir = sample_intent(&kb, held);
            let mut i: usize = 0;
            while i < w.entities.len()
                invariant
                    0 <= i <= w.entities@.len(),
                    w.entities@.len() == old(w).entities@.len(),
                    w.keybindings == old(w).keybindings,
                    w.clock == old(w).clock,
                    dir == sampled_intent(kb, held@),
                    -crate::math::UNIT <= dir.x <= crate::math::UNIT,
                    -crate::math::UNIT <= dir.y <= crate::math::UNIT,
                    -crate::math::UNIT <= dir.z <= crate::math::UNIT,
                    old(w).wf(),
                    forall|j: int|
                        0 <= j < i ==> w.entities@[j] == with_input(
                            #[trigger] old(w).entities@[j],
                            dir,
                        ),
                    forall|j: int|
                        i <= j < w.entities@.len() ==> w.entities@[j] == #[trigger] old(
                            w,
                        ).entities@[j],
                decreases w.entities@.len() - i,
            {
                w.entities[i].input = MoveInput(dir);
                i = i + 1;
            }
            proof {
                assert forall|k: int|
                    0 <= k < w.entities@.len() implies #[trigger] w.entities@[k].wf() by {
                    assert(old(w).entities@[k].wf());
                }
            }
        },
    }
}

/// Fixed-phase system, first in its schedule: resolve every entity's local
/// intent into a world-space velocity. Pure per entity: the new velocity is
/// a function of the entity's current (intent, speed, orientation) alone.
pub fn compute_velocity_from_input(w: &mut World)
    requires
        old(w).wf(),
    ensures
        final(w).wf(),
        final(w).keybindings == old(w).keybindings,
        final(w).clock == old(w).clock,
        final(w).entities@.len() == old(w).entities@.len(),
        forall|i: int|
            0 <= i < final(w).entities@.len() ==> final(w).entities@[i] == resolved_entity(
                #[trigger] old(w).entities@[i],
            ),
{
    let mut i: usize = 0;
    while i < w.entities.len()
        invariant
            0 <= i <= w.entities@.len(),
            w.entities@.len() == old(w).entities@.len(),
            w.keybindings == old(w).keybindings,
            w.clock == old(w).clock,
            old(w).wf(),
            forall|j: int|
                0 <= j < i ==> w.entities@[j] == resolved_entity(#[trigger] old(w).entities@[j]),
            forall|j: int|
                i <= j < w.entities@.len() ==> w.entities@[j] == #[trigger] old(w).entities@[j],
        decreases w.entities@.len() - i,
    {
        proof {
            assert(w.entities@[i as int] == old(w).entities@[i as int]);
            assert(old(w).entities@[i as int].wf());
        }
        let inp = w.entities[i].input;
        let spd = w.entities[i].speed;
        let rot = w.entities[i].transform.rotation;
        let vel = resolve_velocity(&inp, &spd, &rot);
        w.entities[i].velocity = Velocity(vel);
        i = i + 1;
    }
    proof {
        assert forall|k: int|
            0 <= k < w.entities@.len() implies #[trigger] w.entities@[k].wf() by {
            assert(old(w).entities@[k].wf());
        }
    }
}

/// Fixed-phase system, second in its schedule: advance every entity's
/// position by its current velocity times the clock's per-step delta. With
/// an unlatched clock (zero delta) every position is left exactly as it
/// was.
pub fn integrate_velocity(w: &mut World)
    requires
        old(w).wf(),
    ensures
        final(w).wf(),
        final(w).keybindings == old(w).keybindings,
        final(w).clock == old(w).clock,
        final(w).entities@.len() == old(w).entities@.len(),
        forall|i: int|
            0 <= i < final(w).entities@.len() ==> final(w).entities@[i] == integrated_entity(
                #[trigger] old(w).entities@[i],
                old(w).clock.dt_num(),
                old(w).clock.freq_hz as int,
            ),
        !old(w).clock.latched ==> final(w).entities@ == old(w).entities@,
{
    let num: u32 = if w.clock.latched {
        1
    } else {
        0
    };
    let den: u32 = w.clock.freq_hz;
    let mut i: usize = 0;
    while i < w.entities.len()
        invariant
            0 <= i <= w.entities@.len(),
            w.entities@.len() == old(w).entities@.len(),
            w.keybindings == old(w).keybindings,
            w.clock == old(w).clock,
            old(w).wf(),
            num == old(w).clock.dt_num(),
            den == old(w).clock.freq_hz,
            den >= 1,
            forall|j: int|
                0 <= j < i ==> w.entities@[j] == integrated_entity(
                    #[trigger] old(w).entities@[j],
                    num as int,
                    den as int,
                ),
            forall|j: int|
                i <= j < w.entities@.len() ==> w.entities@[j] == #[trigger] old(w).entities@[j],
        decreases w.entities@.len() - i,
    {
        let tr = w.entities[i].transform.translation;
        let ve = w.entities[i].velocity.0;
        let p = step_position(&tr, &ve, num, den);
        w.entities[i].transform.translation = p;
        i = i + 1;
    }
    proof {
        assert forall|k: int|
            0 <= k < w.entities@.len() implies #[trigger] w.entities@[k].wf() by {
            assert(old(w).entities@[k].wf());
        }
        if !old(w).clock.latched {
            assert forall|i: int| 0 <= i < w.entities@.len() implies w.entities@[i] == old(
                w,
            ).entities@[i] by {
                assert(w.entities@[i] == integrated_entity(old(w).entities@[i], 0, den as int));
            }
            assert(w.entities@ =~= old(w).entities@);
        }
    }
}

} // verus!
