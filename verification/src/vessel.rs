//! The vessel callback interface.
//!
//! A spacecraft module is a type implementing [`OrbiterVessel`].  The host
//! engine drives it through a fixed callback set: capability registration
//! once per instance, a pre-step and post-step call per simulation tick,
//! buffered keyboard events, and scenario load/save.  The bridge layer
//! (see [`crate::VesselBridge`]) owns a boxed implementation and forwards
//! each host call to the matching method here.
//!
//! Every callback's contract pins the vessel's next abstract state to a
//! specification function of the previous state and the call's inputs
//! alone.  That rules out hidden nondeterminism: two instances driven
//! through the same calls with the same inputs evolve identically, and a
//! call on one instance can never touch the state of another.
//!
//! The host's simulation times are double-precision values that the
//! decision logic never interprets; they cross this interface as the raw
//! 64-bit words of those values, carried through unchanged.

use vstd::prelude::*;

use crate::input::Key;
use crate::input::KeyStates;
use crate::io::FileHandle;

verus! {

/// The callback set a spacecraft implementation satisfies.
///
/// Each exec method's behaviour is fixed by spec functions the implementor
/// provides: `*_pre` give the states a call may arrive in (the host's call
/// discipline), and the remaining spec functions give, for each callback,
/// the vessel's next abstract state and its outputs as functions of the
/// previous state and the inputs.
pub trait OrbiterVessel: Sized + View {
    /// States in which the host may invoke [`OrbiterVessel::set_class_caps`]:
    /// a freshly constructed instance that has not registered yet.
    spec fn caps_pre(m: Self::V) -> bool;

    /// States in which the host may invoke every other callback: the
    /// instance has registered its resources and is live.
    spec fn step_pre(m: Self::V) -> bool;

    /// State after capability registration.
    spec fn class_caps_next(m: Self::V, cfg: FileHandle) -> Self::V;

    /// State after a pre-step tick.
    spec fn pre_step_next(m: Self::V, sim_t: u64, sim_dt: u64, mjd: u64) -> Self::V;

    /// State after a post-step tick.
    spec fn post_step_next(m: Self::V, sim_t: u64, sim_dt: u64, mjd: u64) -> Self::V;

    /// State after a buffered key event.
    spec fn key_next(m: Self::V, key: Key, down: bool, kstate: Seq<u8>) -> Self::V;

    /// Keyboard buffer after a buffered key event (entries the vessel
    /// clears suppress the host's default handling).
    spec fn key_states_next(m: Self::V, key: Key, down: bool, kstate: Seq<u8>) -> Seq<u8>;

    /// Status code a buffered key event returns: nonzero exactly where the
    /// vessel consumed the event.
    spec fn key_result(m: Self::V, key: Key, down: bool, kstate: Seq<u8>) -> i32;

    /// State after being offered one scenario line.
    spec fn load_param_next(m: Self::V, line: Seq<char>) -> Self::V;

    /// Whether the vessel consumes a scenario line as its own state;
    /// a line it does not consume goes to the host's default parsing.
    spec fn load_param_consumed(m: Self::V, line: Seq<char>) -> bool;

    /// State after writing scenario state.
    spec fn save_state_next(m: Self::V) -> Self::V;

    /// The scenario lines the vessel persists, in the order written.
    spec fn save_state_lines(m: Self::V) -> Seq<Seq<char>>;

    /// Register the vessel's resources with the host.  Invoked exactly
    /// once per instance, before any other callback.  `cfg` is the handle
    /// of the vessel's configuration file, open for reading.
    fn set_class_caps(&mut self, cfg: FileHandle)
        requires
            Self::caps_pre(old(self)@),
        ensures
            final(self)@ == Self::class_caps_next(old(self)@, cfg),
            Self::step_pre(final(self)@),
    ;

    /// One simulation tick, before the host integrates physics.
    fn on_pre_step(&mut self, sim_t: u64, sim_dt: u64, mjd: u64)
        requires
            Self::step_pre(old(self)@),
        ensures
            final(self)@ == Self::pre_step_next(old(self)@, sim_t, sim_dt, mjd),
            Self::step_pre(final(self)@),
    ;

    /// One simulation tick, after the host integrates physics.
    fn on_post_step(&mut self, sim_t: u64, sim_dt: u64, mjd: u64)
        requires
            Self::step_pre(old(self)@),
        ensures
            final(self)@ == Self::post_step_next(old(self)@, sim_t, sim_dt, mjd),
            Self::step_pre(final(self)@),
    ;

    /// One buffered keyboard event.  Returns `0` to let the host apply its
    /// default processing, nonzero to suppress it.
    fn consume_buffered_key(&mut self, key: Key, down: bool, kstate: &mut KeyStates) -> (r: i32)
        requires
            Self::step_pre(old(self)@),
            old(kstate).wf(),
        ensures
            final(self)@ == Self::key_next(old(self)@, key, down, old(kstate)@),
            final(kstate)@ == Self::key_states_next(old(self)@, key, down, old(kstate)@),
            r == Self::key_result(old(self)@, key, down, old(kstate)@),
            Self::step_pre(final(self)@),
            final(kstate).wf(),
    ;

    /// One line of a scenario being loaded.  Returns `true` where the
    /// vessel consumed the line as its own persisted state, `false` to
    /// hand the line to the host's default parsing.
    fn on_load_param(&mut self, line: &str) -> (consumed: bool)
        requires
            Self::step_pre(old(self)@),
        ensures
            final(self)@ == Self::load_param_next(old(self)@, line@),
            consumed == Self::load_param_consumed(old(self)@, line@),
            Self::step_pre(final(self)@),
    ;

    /// Persist the vessel's custom state into a scenario being saved.
    /// Returns the lines to write, in order; the rim appends them to the
    /// scenario file exactly as returned.
    fn on_save_state(&mut self) -> (lines: Vec<String>)
        requires
            Self::step_pre(old(self)@),
        ensures
            final(self)@ == Self::save_state_next(old(self)@),
            lines@.map_values(|s: String| s@) == Self::save_state_lines(old(self)@),
            Self::step_pre(final(self)@),
    ;
}

} // verus!
