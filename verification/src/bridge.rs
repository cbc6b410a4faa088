//! The bridge that carries a vessel implementation across the native
//! boundary.
//!
//! The host engine cannot dispatch on a polymorphic safe-language value
//! itself.  Instead the bridge heap-allocates the implementation behind
//! the [`OrbiterVessel`] interface and keeps it in a [`VesselBridge`]; the
//! unverified rim hands the host an opaque pointer-sized handle to that
//! storage and translates each host callback into a call of the matching
//! `dyn_vessel_*` dispatch shim below.  Each shim unboxes the
//! implementation, invokes one interface method, and passes the inputs and
//! outputs through unchanged — its contract is exactly the interface
//! method's contract, so whatever the implementation's transition
//! functions promise is preserved across the boundary.
//!
//! Ownership follows the host's call discipline: one live bridge per
//! vessel instance, created once and destroyed exactly once.  In this safe
//! core the discipline is enforced by the type system — destruction
//! consumes the bridge by value, so a second destruction or a dispatch
//! after destruction is rejected at compile time, not discovered at run
//! time.

use vstd::prelude::*;

use crate::input::Key;
use crate::input::KeyStates;
use crate::io::FileHandle;
use crate::handles::Dword;
use crate::vessel::OrbiterVessel;

verus! {

/// Owner of one boxed vessel implementation for the whole lifetime of a
/// vessel instance.  The host's opaque handle stands for exactly one value
/// of this type.
pub struct VesselBridge<V: OrbiterVessel> {
    vessel: Box<V>,
}

impl<V: OrbiterVessel> View for VesselBridge<V> {
    type V = <V as View>::V;

    closed spec fn view(&self) -> <V as View>::V {
        self.vessel@
    }
}

impl<V: OrbiterVessel> VesselBridge<V> {
    /// Take ownership of a concrete implementation and heap-allocate it
    /// behind the interface.  Construction does not fail; an allocation
    /// failure aborts, matching the host's expectation of non-failing
    /// initialisation.
    pub fn create(implementation: V) -> (bridge: Self)
        ensures
            bridge@ == implementation@,
    {
        VesselBridge { vessel: Box::new(implementation) }
    }

    /// The owned implementation, for inspection from the safe side.  The
    /// host only ever sees the opaque handle; the implementation itself
    /// never crosses the boundary.
    pub fn vessel(&self) -> (r: &V)
        ensures
            r@ == self@,
    {
        &self.vessel
    }

    /// Mutable access to the owned implementation from the safe side;
    /// this is how the host side of the physics writes state the next
    /// dispatch call reads.
    pub fn vessel_mut(&mut self) -> (r: &mut V)
        ensures
            (*r)@ == old(self)@,
            final(self)@ == final(r)@,
    {
        &mut self.vessel
    }

    /// Release the boxed implementation, ending the instance's lifetime.
    /// The implementation is returned to the caller, whose drop releases
    /// everything it owns.  Destruction consumes the bridge, so the host's
    /// obligation to destroy each handle exactly once — never twice, and
    /// never to dispatch afterwards — is discharged by the type system.
    pub fn destroy(self) -> (vessel: V)
        ensures
            vessel@ == self@,
    {
        *self.vessel
    }
}

/// Dispatch shim for capability registration: unboxes the implementation
/// and invokes [`OrbiterVessel::set_class_caps`].
pub fn dyn_vessel_set_class_caps<V: OrbiterVessel>(vessel: &mut VesselBridge<V>, cfg: FileHandle)
    requires
        V::caps_pre(old(vessel)@),
    ensures
        final(vessel)@ == V::class_caps_next(old(vessel)@, cfg),
        V::step_pre(final(vessel)@),
{
    vessel.vessel.set_class_caps(cfg);
}

/// Dispatch shim for the pre-step tick: unboxes the implementation and
/// invokes [`OrbiterVessel::on_pre_step`], passing the host's raw time
/// words through unchanged.
pub fn dyn_vessel_pre_step<V: OrbiterVessel>(
    vessel: &mut VesselBridge<V>,
    sim_t: u64,
    sim_dt: u64,
    mjd: u64,
)
    requires
        V::step_pre(old(vessel)@),
    ensures
        final(vessel)@ == V::pre_step_next(old(vessel)@, sim_t, sim_dt, mjd),
        V::step_pre(final(vessel)@),
{
    vessel.vessel.on_pre_step(sim_t, sim_dt, mjd);
}

/// Dispatch shim for the post-step tick: unboxes the implementation and
/// invokes [`OrbiterVessel::on_post_step`].
pub fn dyn_vessel_post_step<V: OrbiterVessel>(
    vessel: &mut VesselBridge<V>,
    sim_t: u64,
    sim_dt: u64,
    mjd: u64,
)
    requires
        V::step_pre(old(vessel)@),
    ensures
        final(vessel)@ == V::post_step_next(old(vessel)@, sim_t, sim_dt, mjd),
        V::step_pre(final(vessel)@),
{
    vessel.vessel.on_post_step(sim_t, sim_dt, mjd);
}

/// Dispatch shim for a buffered keyboard event.  The host reports the key
/// as a 32-bit word whose low byte is the scan code; the shim decodes it
/// and invokes [`OrbiterVessel::consume_buffered_key`], returning the
/// implementation's status code unchanged.
pub fn dyn_vessel_consume_buffered_key<V: OrbiterVessel>(
    vessel: &mut VesselBridge<V>,
    key: Dword,
    down: bool,
    kstate: &mut KeyStates,
) -> (r: i32)
    requires
        V::step_pre(old(vessel)@),
        old(kstate).wf(),
    ensures
        final(vessel)@ == V::key_next(
            old(vessel)@,
            crate::input::key_of((key.0 & 0xFF) as u8),
            down,
            old(kstate)@,
        ),
        final(kstate)@ == V::key_states_next(
            old(vessel)@,
            crate::input::key_of((key.0 & 0xFF) as u8),
            down,
            old(kstate)@,
        ),
        r == V::key_result(
            old(vessel)@,
            crate::input::key_of((key.0 & 0xFF) as u8),
            down,
            old(kstate)@,
        ),
        V::step_pre(final(vessel)@),
        final(kstate).wf(),
{
    let code = (key.0 & 0xFF) as u8;
    let logical = Key::from(code);
    vessel.vessel.consume_buffered_key(logical, down, kstate)
}

/// The state a vessel reaches after being offered each of `lines` in
/// order.
pub open spec fn load_run<V: OrbiterVessel>(m: V::V, lines: Seq<Seq<char>>) -> V::V
    decreases lines.len(),
{
    if lines.len() == 0 {
        m
    } else {
        load_run::<V>(V::load_param_next(m, lines[0]), lines.skip(1))
    }
}

/// Which of `lines`, offered in order, the vessel consumes as its own
/// state.
pub open spec fn load_consumed_flags<V: OrbiterVessel>(m: V::V, lines: Seq<Seq<char>>) -> Seq<
    bool,
>
    decreases lines.len(),
{
    if lines.len() == 0 {
        Seq::empty()
    } else {
        seq![V::load_param_consumed(m, lines[0])] + load_consumed_flags::<V>(
            V::load_param_next(m, lines[0]),
            lines.skip(1),
        )
    }
}

/// Offering the lines `s` and then one more line `x` runs the vessel
/// through `s` first and offers `x` to the resulting state.
proof fn lemma_load_run_snoc<V: OrbiterVessel>(m: V::V, s: Seq<Seq<char>>, x: Seq<char>)
    ensures
        load_run::<V>(m, s + seq![x]) == V::load_param_next(load_run::<V>(m, s), x),
    decreases s.len(),
{
    if s.len() == 0 {
        assert(s + seq![x] =~= seq![x]);
        assert((seq![x])[0] == x);
        assert((seq![x]).skip(1) =~= Seq::<Seq<char>>::empty());
        assert(load_run::<V>(m, seq![x]) == load_run::<V>(
            V::load_param_next(m, x),
            (seq![x]).skip(1),
        ));
        assert(load_run::<V>(m, s) == m);
    } else {
        assert((s + seq![x]).len() == s.len() + 1);
        assert((s + seq![x])[0] == s[0]);
        assert((s + seq![x]).skip(1) =~= s.skip(1) + seq![x]);
        assert(load_run::<V>(m, s + seq![x]) == load_run::<V>(
            V::load_param_next(m, s[0]),
            s.skip(1) + seq![x],
        ));
        lemma_load_run_snoc::<V>(V::load_param_next(m, s[0]), s.skip(1), x);
        assert(load_run::<V>(m, s) == load_run::<V>(V::load_param_next(m, s[0]), s.skip(1)));
    }
}

/// The consumed flag of one more line `x` after the lines `s` is decided
/// by the state the vessel reached through `s`.
proof fn lemma_load_flags_snoc<V: OrbiterVessel>(m: V::V, s: Seq<Seq<char>>, x: Seq<char>)
    ensures
        load_consumed_flags::<V>(m, s + seq![x]) == load_consumed_flags::<V>(m, s) + seq![
            V::load_param_consumed(load_run::<V>(m, s), x),
        ],
    decreases s.len(),
{
    if s.len() == 0 {
        assert(s + seq![x] =~= seq![x]);
        assert((seq![x])[0] == x);
        assert((seq![x]).skip(1) =~= Seq::<Seq<char>>::empty());
        assert(load_consumed_flags::<V>(m, seq![x]) == seq![V::load_param_consumed(m, x)]
            + load_consumed_flags::<V>(V::load_param_next(m, x), (seq![x]).skip(1)));
        assert(load_consumed_flags::<V>(m, s) == Seq::<bool>::empty());
        assert(load_run::<V>(m, s) == m);
        assert(load_consumed_flags::<V>(m, s + seq![x]) =~= load_consumed_flags::<V>(m, s) + seq![
            V::load_param_consumed(load_run::<V>(m, s), x),
        ]);
    } else {
        assert((s + seq![x]).len() == s.len() + 1);
        assert((s + seq![x])[0] == s[0]);
        assert((s + seq![x]).skip(1) =~= s.skip(1) + seq![x]);
        assert(load_consumed_flags::<V>(m, s + seq![x]) == seq![V::load_param_consumed(m, s[0])]
            + load_consumed_flags::<V>(V::load_param_next(m, s[0]), s.skip(1) + seq![x]));
        lemma_load_flags_snoc::<V>(V::load_param_next(m, s[0]), s.skip(1), x);
        lemma_load_run_snoc::<V>(V::load_param_next(m, s[0]), s.skip(1), x);
        assert(load_run::<V>(m, s) == load_run::<V>(V::load_param_next(m, s[0]), s.skip(1)));
        assert(load_consumed_flags::<V>(m, s) == seq![V::load_param_consumed(m, s[0])]
            + load_consumed_flags::<V>(V::load_param_next(m, s[0]), s.skip(1)));
        assert(load_consumed_flags::<V>(m, s + seq![x]) =~= load_consumed_flags::<V>(m, s) + seq![
            V::load_param_consumed(load_run::<V>(m, s), x),
        ]);
    }
}

/// Dispatch shim for scenario loading.  The host parses the scenario file
/// and the rim collects the vessel's parameter lines; the shim offers each
/// line in order to [`OrbiterVessel::on_load_param`] and reports, per
/// line, whether the vessel consumed it — a line it did not consume must
/// be handed on to the host's default parsing.
pub fn dyn_vessel_load_state_ex<V: OrbiterVessel>(
    vessel: &mut VesselBridge<V>,
    lines: &Vec<String>,
) -> (consumed: Vec<bool>)
    requires
        V::step_pre(old(vessel)@),
    ensures
        final(vessel)@ == load_run::<V>(old(vessel)@, lines@.map_values(|s: String| s@)),
        consumed@ == load_consumed_flags::<V>(old(vessel)@, lines@.map_values(|s: String| s@)),
        consumed@.len() == lines@.len(),
        V::step_pre(final(vessel)@),
{
    let ghost line_views = lines@.map_values(|s: String| s@);
    let mut consumed: Vec<bool> = Vec::new();
    let mut i: usize = 0;
    while i < lines.len()
        invariant
            i <= lines@.len(),
            line_views == lines@.map_values(|s: String| s@),
            vessel@ == load_run::<V>(old(vessel)@, line_views.take(i as int)),
            consumed@ == load_consumed_flags::<V>(old(vessel)@, line_views.take(i as int)),
            consumed@.len() == i,
            V::step_pre(vessel@),
        decreases lines@.len() - i,
    {
        let ghost prefix = line_views.take(i as int);
        let ghost mid = vessel@;
        let flag = vessel.vessel.on_load_param(lines[i].as_str());
        consumed.push(flag);
        proof {
            assert(line_views.take(i + 1) =~= prefix + seq![line_views[i as int]]);
            lemma_load_run_snoc::<V>(old(vessel)@, prefix, line_views[i as int]);
            lemma_load_flags_snoc::<V>(old(vessel)@, prefix, line_views[i as int]);
        }
        i += 1;
    }
    proof {
        assert(line_views.take(lines@.len() as int) =~= line_views);
    }
    consumed
}

/// The host's raw time words for one simulation tick.
#[verifier::ext_equal]
pub ghost struct StepInput {
    /// Simulation time word
    pub sim_t: u64,
    /// Simulation step-length word
    pub sim_dt: u64,
    /// Modified-Julian-date word
    pub mjd: u64,
}

/// The state a vessel reaches after a sequence of pre-step ticks.
pub open spec fn run_pre_steps<V: OrbiterVessel>(m: V::V, steps: Seq<StepInput>) -> V::V
    decreases steps.len(),
{
    if steps.len() == 0 {
        m
    } else {
        run_pre_steps::<V>(
            V::pre_step_next(m, steps[0].sim_t, steps[0].sim_dt, steps[0].mjd),
            steps.skip(1),
        )
    }
}

/// Law: stepping is deterministic.  Two instances with equal abstract
/// state, driven through the same pre-step inputs, evolve through equal
/// abstract states — every callback's contract pins the next state to a
/// function of the previous state and the inputs, so there is no hidden
/// nondeterminism for this law to exclude.
pub proof fn lemma_pre_steps_deterministic<V: OrbiterVessel>(
    m1: V::V,
    m2: V::V,
    steps: Seq<StepInput>,
)
    requires
        m1 == m2,
    ensures
        run_pre_steps::<V>(m1, steps) == run_pre_steps::<V>(m2, steps),
{
}

/// Of an interleaved schedule over two instances, the inputs that go to
/// one of them, in order: `first` selects the instance.
pub open spec fn inputs_for(sched: Seq<(bool, StepInput)>, first: bool) -> Seq<StepInput>
    decreases sched.len(),
{
    if sched.len() == 0 {
        Seq::empty()
    } else if sched[0].0 == first {
        seq![sched[0].1] + inputs_for(sched.skip(1), first)
    } else {
        inputs_for(sched.skip(1), first)
    }
}

/// The pair of states two instances reach when an interleaved schedule of
/// pre-step ticks is dispatched over them: `true` entries go to the first
/// instance, `false` entries to the second.
pub open spec fn run_pair<V: OrbiterVessel>(
    a: V::V,
    b: V::V,
    sched: Seq<(bool, StepInput)>,
) -> (V::V, V::V)
    decreases sched.len(),
{
    if sched.len() == 0 {
        (a, b)
    } else {
        let e = sched[0];
        if e.0 {
            run_pair::<V>(V::pre_step_next(a, e.1.sim_t, e.1.sim_dt, e.1.mjd), b, sched.skip(1))
        } else {
            run_pair::<V>(a, V::pre_step_next(b, e.1.sim_t, e.1.sim_dt, e.1.mjd), sched.skip(1))
        }
    }
}

/// Law: instances are isolated.  However dispatch calls over two vessel
/// instances are interleaved, each instance ends exactly where its own
/// inputs alone take it — a dispatch on one handle never touches the
/// state behind another.
pub proof fn lemma_instances_isolated<V: OrbiterVessel>(
    a: V::V,
    b: V::V,
    sched: Seq<(bool, StepInput)>,
)
    ensures
        run_pair::<V>(a, b, sched).0 == run_pre_steps::<V>(a, inputs_for(sched, true)),
        run_pair::<V>(a, b, sched).1 == run_pre_steps::<V>(b, inputs_for(sched, false)),
    decreases sched.len(),
{
    if sched.len() == 0 {
    } else {
        let e = sched[0];
        let rest = sched.skip(1);
        if e.0 {
            let a2 = V::pre_step_next(a, e.1.sim_t, e.1.sim_dt, e.1.mjd);
            lemma_instances_isolated::<V>(a2, b, rest);
            assert(inputs_for(sched, true) == seq![e.1] + inputs_for(rest, true));
            assert((seq![e.1] + inputs_for(rest, true))[0] == e.1);
            assert((seq![e.1] + inputs_for(rest, true)).skip(1) =~= inputs_for(rest, true));
            assert(run_pre_steps::<V>(a, inputs_for(sched, true)) == run_pre_steps::<V>(
                a2,
                inputs_for(rest, true),
            ));
            assert(inputs_for(sched, false) == inputs_for(rest, false));
        } else {
            let b2 = V::pre_step_next(b, e.1.sim_t, e.1.sim_dt, e.1.mjd);
            lemma_instances_isolated::<V>(a, b2, rest);
            assert(inputs_for(sched, false) == seq![e.1] + inputs_for(rest, false));
            assert((seq![e.1] + inputs_for(rest, false))[0] == e.1);
            assert((seq![e.1] + inputs_for(rest, false)).skip(1) =~= inputs_for(rest, false));
            assert(run_pre_steps::<V>(b, inputs_for(sched, false)) == run_pre_steps::<V>(
                b2,
                inputs_for(rest, false),
            ));
            assert(inputs_for(sched, true) == inputs_for(rest, true));
        }
    }
}

/// Dispatch shim for scenario saving: unboxes the implementation, invokes
/// [`OrbiterVessel::on_save_state`], and returns the lines the vessel
/// persists; the rim writes them to the scenario file in order, exactly
/// as returned.
pub fn dyn_vessel_save_state<V: OrbiterVessel>(vessel: &mut VesselBridge<V>) -> (lines: Vec<
    String,
>)
    requires
        V::step_pre(old(vessel)@),
    ensures
        final(vessel)@ == V::save_state_next(old(vessel)@),
        lines@.map_values(|s: String| s@) == V::save_state_lines(old(vessel)@),
        V::step_pre(final(vessel)@),
{
    vessel.vessel.on_save_state()
}

} // verus!
