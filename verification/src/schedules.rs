//! Scheduling: two steady-state phases and the systems registered in them.
//!
//! The Variable Phase (`Update`) runs once per render tick and holds input
//! sampling. The Fixed Phase (`FixedUpdate`) runs zero or more times per
//! render tick, at the clock's configured frequency, and holds the velocity
//! resolver strictly before the integrator. The ordering is enforced by
//! construction: the registration list pins it, and the fixed step runs the
//! two systems in exactly that sequence.

use vstd::prelude::*;

use crate::bundles::{spawn_player, PlayerBundle};
use crate::input::{sampled_intent, PlayerKeybindings};
use crate::world::{
    compute_velocity_from_input, integrate_velocity, integrated_entity, read_player_input,
    resolved_entity, with_input, FixedClock, World,
};

verus! {

/// The fixed-phase frequency the application is configured with, in hertz.
pub const FIXED_HZ: u32 = 60;

/// High-level system sets: variable-rate input gathering, and fixed-rate
/// movement stepping.
#[derive(Clone, Copy, Debug, PartialEq, Eq, Structural, Hash)]
pub enum AppSet {
    Input,
    FixedMovement,
}

/// The schedules systems can be registered in: one-time setup, the variable
/// phase, and the fixed phase.
#[derive(Clone, Copy, Debug, PartialEq, Eq, Structural, Hash)]
pub enum ScheduleLabel {
    Startup,
    Update,
    FixedUpdate,
}

/// Every system of the movement pipeline.
#[derive(Clone, Copy, Debug, PartialEq, Eq, Structural, Hash)]
pub enum SystemId {
    SpawnPlayer,
    ReadPlayerInput,
    ComputeVelocityFromInput,
    IntegrateVelocity,
}

/// The set each steady-state system belongs to; setup systems have none.
pub fn system_set(s: SystemId) -> (r: Option<AppSet>)
    ensures
        r == (match s {
            SystemId::SpawnPlayer => Option::<AppSet>::None,
            SystemId::ReadPlayerInput => Some(AppSet::Input),
            SystemId::ComputeVelocityFromInput => Some(AppSet::FixedMovement),
            SystemId::IntegrateVelocity => Some(AppSet::FixedMovement),
        }),
{
    match s {
        SystemId::SpawnPlayer => None,
        SystemId::ReadPlayerInput => Some(AppSet::Input),
        SystemId::ComputeVelocityFromInput => Some(AppSet::FixedMovement),
        SystemId::IntegrateVelocity => Some(AppSet::FixedMovement),
    }
}

/// The schedule each set is configured to run in.
pub fn schedule_of_set(s: AppSet) -> (r: ScheduleLabel)
    ensures
        r == (match s {
            AppSet::Input => ScheduleLabel::Update,
            AppSet::FixedMovement => ScheduleLabel::FixedUpdate,
        }),
{
    match s {
        AppSet::Input => ScheduleLabel::Update,
        AppSet::FixedMovement => ScheduleLabel::FixedUpdate,
    }
}

/// The registration contract: which systems run in each schedule and in
/// which order. The velocity resolver stands strictly before the integrator
/// in the fixed phase — a correctness requirement, not a preference.
pub fn systems_in_schedule(s: ScheduleLabel) -> (r: Vec<SystemId>)
    ensures
        s == ScheduleLabel::Startup ==> r@ == seq![SystemId::SpawnPlayer],
        s == ScheduleLabel::Update ==> r@ == seq![SystemId::ReadPlayerInput],
        s == ScheduleLabel::FixedUpdate ==> r@ == seq![
            SystemId::ComputeVelocityFromInput,
            SystemId::IntegrateVelocity,
        ],
{
    let mut r: Vec<SystemId> = Vec::new();
    match s {
        ScheduleLabel::Startup => {
            r.push(SystemId::SpawnPlayer);
            proof {
                assert(r@ =~= seq![SystemId::SpawnPlayer]);
            }
        },
        ScheduleLabel::Update => {
            r.push(SystemId::ReadPlayerInput);
            proof {
                assert(r@ =~= seq![SystemId::ReadPlayerInput]);
            }
        },
        ScheduleLabel::FixedUpdate => {
            r.push(SystemId::ComputeVelocityFromInput);
            r.push(SystemId::IntegrateVelocity);
            proof {
                assert(r@ =~= seq![
                    SystemId::ComputeVelocityFromInput,
                    SystemId::IntegrateVelocity,
                ]);
            }
        },
    }
    r
}

/// The entities after the variable phase: unchanged when the keybindings
/// resource is absent, otherwise every intent replaced by the sampled one.
pub open spec fn sampled_entities(
    s: Seq<PlayerBundle>,
    kb: Option<PlayerKeybindings>,
    keys: Seq<u32>,
) -> Seq<PlayerBundle> {
    match kb {
        None => s,
        Some(k) => s.map_values(|e: PlayerBundle| with_input(e, sampled_intent(k, keys))),
    }
}

/// One entity after one full fixed step: velocity resolved from the current
/// intent, then that fresh velocity integrated over a whole step.
pub open spec fn fixed_step_entity(e: PlayerBundle, den: int) -> PlayerBundle {
    integrated_entity(resolved_entity(e), 1, den)
}

/// The entities after `n` fixed steps.
pub open spec fn fixed_steps_n(s: Seq<PlayerBundle>, den: int, n: nat) -> Seq<PlayerBundle>
    decreases n,
{
    if n == 0 {
        s
    } else {
        fixed_steps_n(s, den, (n - 1) as nat).map_values(
            |e: PlayerBundle| fixed_step_entity(e, den),
        )
    }
}

/// `a` clamped to the `u64` range.
pub open spec fn sat_u64(a: int) -> int {
    if a > u64::MAX {
        u64::MAX as int
    } else {
        a
    }
}

/// Run one fixed step: latch the clock, then the fixed schedule in its
/// registered order — velocity resolver first, integrator second. Every
/// entity's position moves by the velocity resolved in this same step from
/// its current intent: stale velocities are never integrated.
pub fn run_fixed_step(w: &mut World)
    requires
        old(w).wf(),
    ensures
        final(w).wf(),
        final(w).keybindings == old(w).keybindings,
        final(w).clock.freq_hz == old(w).clock.freq_hz,
        final(w).clock.overstep_ns == old(w).clock.overstep_ns,
        final(w).clock.latched,
        final(w).clock.steps_run == sat_u64(old(w).clock.steps_run + 1),
        final(w).entities@ == old(w).entities@.map_values(
            |e: PlayerBundle| fixed_step_entity(e, old(w).clock.freq_hz as int),
        ),
{
    w.clock.latch_step();
    compute_velocity_from_input(w);
    integrate_velocity(w);
    proof {
        let den = old(w).clock.freq_hz as int;
        assert(w.entities@ =~= old(w).entities@.map_values(
            |e: PlayerBundle| fixed_step_entity(e, den),
        ));
    }
}

/// One full application tick: the variable phase once (input sampling),
/// then the frame's wall-clock time is added to the fixed clock and the
/// fixed phase runs once per whole step accumulated, carrying the remainder
/// to the next tick. This is the dual-rate contract: input is sampled at
/// the render rate, movement advances only in whole fixed steps.
pub fn update(w: &mut World, held: &Vec<u32>, frame_ns: u64)
    requires
        old(w).wf(),
        held@.no_duplicates(),
        old(w).clock.overstep_ns + frame_ns <= u64::MAX,
    ensures
        final(w).wf(),
        final(w).keybindings == old(w).keybindings,
        final(w).clock.freq_hz == old(w).clock.freq_hz,
        ({
            let total = old(w).clock.overstep_ns + frame_ns;
            let k = total / old(w).clock.step_ns();
            &&& final(w).clock.overstep_ns == total % old(w).clock.step_ns()
            &&& final(w).clock.latched == (old(w).clock.latched || k > 0)
            &&& final(w).clock.steps_run == sat_u64(old(w).clock.steps_run + k)
            &&& final(w).entities@ == fixed_steps_n(
                sampled_entities(old(w).entities@, old(w).keybindings, held@),
                old(w).clock.freq_hz as int,
                k as nat,
            )
        }),
{
    read_player_input(w, held);
    proof {
        assert(w.entities@ == sampled_entities(old(w).entities@, old(w).keybindings, held@));
    }
    let ghost sampled = w.entities@;
    let steps = w.clock.accumulate(frame_ns);
    let den = w.clock.freq_hz;
    let mut j: u64 = 0;
    while j < steps
        invariant
            w.wf(),
            j <= steps,
            den == old(w).clock.freq_hz,
            w.clock.freq_hz == old(w).clock.freq_hz,
            w.keybindings == old(w).keybindings,
            w.clock.overstep_ns == (old(w).clock.overstep_ns + frame_ns) % old(
                w,
            ).clock.step_ns(),
            steps == (old(w).clock.overstep_ns + frame_ns) / old(w).clock.step_ns(),
            w.clock.latched == (old(w).clock.latched || j > 0),
            w.clock.steps_run == sat_u64(old(w).clock.steps_run + j),
            w.entities@ == fixed_steps_n(sampled, den as int, j as nat),
        decreases steps - j,
    {
        run_fixed_step(w);
        j = j + 1;
        proof {
            assert(fixed_steps_n(sampled, den as int, j as nat) == fixed_steps_n(
                sampled,
                den as int,
                (j - 1) as nat,
            ).map_values(|e: PlayerBundle| fixed_step_entity(e, den as int)));
        }
    }
}

/// Engine-level configuration: the fixed timestep frequency, and the
/// schedule each system set runs in.
pub struct AppPlugin;

impl AppPlugin {
    /// Configure the world's fixed clock at [`FIXED_HZ`]. The set-to-
    /// schedule assignment itself is [`schedule_of_set`].
    pub fn build(&self, w: &mut World)
        ensures
            final(w).clock == (FixedClock {
                freq_hz: FIXED_HZ,
                overstep_ns: 0,
                steps_run: 0,
                latched: false,
            }),
            final(w).entities == old(w).entities,
            final(w).keybindings == old(w).keybindings,
            final(w).clock.wf(),
    {
        w.clock = FixedClock::from_hz(FIXED_HZ);
    }
}

/// The player feature: default keybindings and the player entity, plus the
/// movement systems whose registration [`systems_in_schedule`] pins.
pub struct PlayerPlugin;

impl PlayerPlugin {
    /// Insert the default keybindings (a host may overwrite them before the
    /// loop starts) and spawn the player entity.
    pub fn build(&self, w: &mut World)
        requires
            old(w).wf(),
        ensures
            final(w).wf(),
            final(w).keybindings == Some(PlayerKeybindings {
                forward: crate::input::KEY_W,
                back: crate::input::KEY_S,
                left: crate::input::KEY_A,
                right: crate::input::KEY_D,
                up: crate::input::KEY_SPACE,
                down: crate::input::KEY_SHIFT_LEFT,
            }),
            final(w).entities@.len() == old(w).entities@.len() + 1,
            final(w).entities@.subrange(0, old(w).entities@.len() as int) == old(w).entities@,
            final(w).entities@.last() == crate::bundles::spawned_player_bundle(),
            final(w).clock == old(w).clock,
    {
        w.keybindings = Some(PlayerKeybindings::default());
        spawn_player(w);
        proof {
            assert(final(w).entities@.subrange(0, old(w).entities@.len() as int) =~= old(
                w,
            ).entities@);
        }
    }
}

/// Registers the gameplay features: just the player feature in this slice.
pub struct FeaturesPlugin;

impl FeaturesPlugin {
    pub fn build(&self, w: &mut World)
        requires
            old(w).wf(),
        ensures
            final(w).wf(),
            final(w).keybindings == Some(PlayerKeybindings {
                forward: crate::input::KEY_W,
                back: crate::input::KEY_S,
                left: crate::input::KEY_A,
                right: crate::input::KEY_D,
                up: crate::input::KEY_SPACE,
                down: crate::input::KEY_SHIFT_LEFT,
            }),
            final(w).entities@.len() == old(w).entities@.len() + 1,
            final(w).entities@.subrange(0, old(w).entities@.len() as int) == old(w).entities@,
            final(w).entities@.last() == crate::bundles::spawned_player_bundle(),
            final(w).clock == old(w).clock,
    {
        PlayerPlugin.build(w);
    }
}

/// Game-level composition: the gameplay features. Scene decoration (camera,
/// lights, meshes) is the host's business and stays outside the verified
/// world.
pub struct GamePlugin;

impl GamePlugin {
    pub fn build(&self, w: &mut World)
        requires
            old(w).wf(),
        ensures
            final(w).wf(),
            final(w).keybindings == Some(PlayerKeybindings {
                forward: crate::input::KEY_W,
                back: crate::input::KEY_S,
                left: crate::input::KEY_A,
                right: crate::input::KEY_D,
                up: crate::input::KEY_SPACE,
                down: crate::input::KEY_SHIFT_LEFT,
            }),
            final(w).entities@.len() == old(w).entities@.len() + 1,
            final(w).entities@.subrange(0, old(w).entities@.len() as int) == old(w).entities@,
            final(w).entities@.last() == crate::bundles::spawned_player_bundle(),
            final(w).clock == old(w).clock,
    {
        FeaturesPlugin.build(w);
    }
}

/// Build the game world with all plugins applied: a 60 Hz fixed clock,
/// default keybindings, and one freshly spawned player entity.
pub fn build_app() -> (w: World)
    ensures
        w.wf(),
        w.clock == (FixedClock { freq_hz: FIXED_HZ, overstep_ns: 0, steps_run: 0, latched: false }),
        w.keybindings == Some(PlayerKeybindings {
            forward: crate::input::KEY_W,
            back: crate::input::KEY_S,
            left: crate::input::KEY_A,
            right: crate::input::KEY_D,
            up: crate::input::KEY_SPACE,
            down: crate::input::KEY_SHIFT_LEFT,
        }),
        w.entities@.len() == 1,
        w.entities@[0] == crate::bundles::spawned_player_bundle(),
{
    let mut w = World::new(FIXED_HZ);
    AppPlugin.build(&mut w);
    GamePlugin.build(&mut w);
    w
}

} // verus!
