use orbiter_rs::Dword;
use orbiter_rs::FileHandle;
use orbiter_rs::KeyStates;
use orbiter_rs::RustSpacecraft;
use orbiter_rs::SurveyorState;
use orbiter_rs::ThrusterGroupType;
use orbiter_rs::VesselBridge;
use orbiter_rs::VesselContext;
use orbiter_rs::dyn_vessel_consume_buffered_key;
use orbiter_rs::dyn_vessel_load_state_ex;
use orbiter_rs::dyn_vessel_post_step;
use orbiter_rs::dyn_vessel_pre_step;
use orbiter_rs::dyn_vessel_save_state;
use orbiter_rs::dyn_vessel_set_class_caps;
use orbiter_rs::AMR_DETACH_MASS_CG;

const KEY_L: u32 = 0x26;
const KEY_A: u32 = 0x1E;

fn new_craft(name: &str) -> VesselBridge<RustSpacecraft> {
    let ctx = VesselContext::new(name.to_string());
    let mut bridge = VesselBridge::create(RustSpacecraft::new(ctx));
    dyn_vessel_set_class_caps(&mut bridge, FileHandle(7));
    bridge
}

fn set_retro_mass(bridge: &mut VesselBridge<RustSpacecraft>, mass_cg: u64) {
    let ph_retro = bridge.vessel().ph_retro();
    bridge.vessel_mut().ctx_mut().SetPropellantMass(ph_retro, mass_cg);
}

fn blank_keys() -> KeyStates {
    KeyStates::from(vec![0u8; 256])
}

#[test]
fn class_caps_registers_resources() {
    let bridge = new_craft("Surveyor1");
    let ctx = bridge.vessel().ctx();
    assert_eq!(ctx.propellant_count(), 3);
    assert_eq!(ctx.thruster_count(), 10);
    assert_eq!(ctx.group_count(), 7);
    assert_eq!(ctx.exhaust_count(), 10);
    assert_eq!(ctx.empty_mass(), 28_910_000);
    assert_eq!(ctx.spawned_count(), 0);

    // tanks are created full, in vernier / attitude / retro order
    assert_eq!(ctx.propellant_at(0).max_mass_cg, 7_098_000);
    assert_eq!(ctx.propellant_at(1).max_mass_cg, 200_000);
    assert_eq!(ctx.propellant_at(2).max_mass_cg, 56_064_000);
    assert_eq!(ctx.propellant_at(2).current_mass_cg, 56_064_000);

    // each thruster draws from its own stage's tank
    assert_eq!(ctx.thruster_at(0).propellant, ctx.propellant_at(0).handle);
    assert_eq!(ctx.thruster_at(3).propellant, ctx.propellant_at(1).handle);
    assert_eq!(ctx.thruster_at(9).propellant, ctx.propellant_at(2).handle);
    assert_eq!(ctx.thruster_at(9).level_milli, 0);

    // a fully stacked craft shows all three meshes
    let meshes = bridge.vessel().ctx().meshes();
    assert_eq!(meshes.len(), 3);
    assert_eq!(meshes[0], "Surveyor-AMR");
    assert_eq!(meshes[1], "Surveyor-Retro");
    assert_eq!(meshes[2], "Surveyor-Lander");
}

#[test]
fn class_caps_wires_attitude_groups() {
    let bridge = new_craft("Surveyor1");
    let ctx = bridge.vessel().ctx();
    // thrusters: 0..2 verniers, 3..8 attitude jets, 9 retro
    let jet = |i: usize| ctx.thruster_at(3 + i).handle;

    let main = ctx.group_at(0);
    assert_eq!(main.kind, ThrusterGroupType::Main);
    assert_eq!(main.members.len(), 3);
    assert_eq!(main.members[0], ctx.thruster_at(0).handle);

    let pitchdown = ctx.group_at(1);
    assert_eq!(pitchdown.kind, ThrusterGroupType::AttPitchdown);
    assert_eq!(pitchdown.members, vec![jet(3), jet(5)]);

    let pitchup = ctx.group_at(2);
    assert_eq!(pitchup.kind, ThrusterGroupType::AttPitchup);
    assert_eq!(pitchup.members, vec![jet(2), jet(4)]);

    let bankright = ctx.group_at(3);
    assert_eq!(bankright.kind, ThrusterGroupType::AttBankright);
    assert_eq!(bankright.members, vec![jet(0)]);

    // the bank-left group keeps the pitch-up jet left in the scratch
    // slot, exactly as the craft has always been wired
    let bankleft = ctx.group_at(4);
    assert_eq!(bankleft.kind, ThrusterGroupType::AttBankleft);
    assert_eq!(bankleft.members, vec![jet(1), jet(4)]);

    let yawright = ctx.group_at(5);
    assert_eq!(yawright.kind, ThrusterGroupType::AttYawright);
    assert_eq!(yawright.members, vec![jet(3), jet(4)]);

    let yawleft = ctx.group_at(6);
    assert_eq!(yawleft.kind, ThrusterGroupType::AttYawleft);
    assert_eq!(yawleft.members, vec![jet(2), jet(5)]);
}

#[test]
fn first_step_counts_all_parts_in_empty_mass() {
    let mut bridge = new_craft("Surveyor1");
    dyn_vessel_pre_step(&mut bridge, 1, 1, 1);
    // lander bus + retro case + AMR
    assert_eq!(bridge.vessel().ctx().empty_mass(), 35_780_000);
    assert_eq!(bridge.vessel().vehicle_state(), SurveyorState::BeforeRetroIgnition);
    assert_eq!(bridge.vessel().ctx().spawned_count(), 0);
}

#[test]
fn retro_ignition_drops_amr_and_relights() {
    let mut bridge = new_craft("Surveyor1");
    set_retro_mass(&mut bridge, 50_000_000);
    dyn_vessel_pre_step(&mut bridge, 1, 1, 1);
    assert_eq!(bridge.vessel().vehicle_state(), SurveyorState::RetroFiring);
    let ctx = bridge.vessel().ctx();
    assert_eq!(ctx.spawned_count(), 1);
    assert_eq!(ctx.spawned_at(0).name, "Surveyor1-AMR");
    assert_eq!(ctx.spawned_at(0).classname, "Surveyor_AMR");
    let meshes = ctx.meshes();
    assert_eq!(meshes.len(), 2);
    assert_eq!(meshes[0], "Surveyor-Retro");
    // the retro was relit at full thrust
    assert_eq!(ctx.thruster_at(9).level_milli, 1000);
    // the AMR no longer counts toward the empty mass
    assert_eq!(ctx.empty_mass(), 28_910_000 + 6_488_000);
}

#[test]
fn spent_retro_drops_case() {
    let mut bridge = new_craft("Surveyor1");
    set_retro_mass(&mut bridge, 50_000_000);
    dyn_vessel_pre_step(&mut bridge, 1, 1, 1);
    set_retro_mass(&mut bridge, 50_000);
    dyn_vessel_pre_step(&mut bridge, 2, 1, 1);
    assert_eq!(bridge.vessel().vehicle_state(), SurveyorState::AfterRetro);
    let ctx = bridge.vessel().ctx();
    assert_eq!(ctx.spawned_count(), 2);
    assert_eq!(ctx.spawned_at(1).name, "Surveyor1-Retro");
    assert_eq!(ctx.spawned_at(1).classname, "Surveyor_Retro");
    let meshes = ctx.meshes();
    assert_eq!(meshes.len(), 1);
    assert_eq!(meshes[0], "Surveyor-Lander");
    // only the lander bus is left
    assert_eq!(ctx.empty_mass(), 28_910_000);
}

#[test]
fn threshold_boundary_does_not_jettison() {
    let mut bridge = new_craft("Surveyor1");
    // exactly at the ignition threshold: not yet below it
    set_retro_mass(&mut bridge, AMR_DETACH_MASS_CG);
    dyn_vessel_pre_step(&mut bridge, 1, 1, 1);
    assert_eq!(bridge.vessel().vehicle_state(), SurveyorState::BeforeRetroIgnition);
    assert_eq!(bridge.vessel().ctx().spawned_count(), 0);
    // at the boundary the AMR no longer counts, the retro case still does
    assert_eq!(bridge.vessel().ctx().empty_mass(), 28_910_000 + 6_488_000);
}

fn run_descent(steps: u64) -> (SurveyorState, u64, usize, usize) {
    let mut bridge = new_craft("Surveyor1");
    for t in 0..steps {
        if t == 50 {
            set_retro_mass(&mut bridge, 60_000);
        }
        dyn_vessel_pre_step(&mut bridge, t, 10, 5);
    }
    let craft = bridge.destroy();
    let state = craft.vehicle_state();
    let empty = craft.ctx().empty_mass();
    let spawned = craft.ctx().spawned_count();
    let meshes = craft.ctx().meshes().len();
    (state, empty, spawned, meshes)
}

#[test]
fn hundred_ticks_deterministic_across_runs() {
    // Two independent runs over identical inputs evolve identically.
    let first = run_descent(100);
    let second = run_descent(100);
    assert_eq!(first, second);
    // 60 kg is below both thresholds: the craft ignites, then drops the
    // spent retro on the following tick.
    assert_eq!(first.0, SurveyorState::AfterRetro);
    assert_eq!(first.1, 28_910_000);
    assert_eq!(first.2, 2);
    assert_eq!(first.3, 1);
}

#[test]
fn interleaved_instances_do_not_leak_state() {
    // Drive two vessel instances through interleaved dispatch calls;
    // only the first one's retro is drained.
    let mut a = new_craft("VesselA");
    let mut b = new_craft("VesselB");
    set_retro_mass(&mut a, 40_000);
    for t in 0..10 {
        dyn_vessel_pre_step(&mut a, t, 1, 1);
        dyn_vessel_pre_step(&mut b, t, 1, 1);
    }
    // instance A went through both jettisons; B never left the pad state
    assert_eq!(a.vessel().vehicle_state(), SurveyorState::AfterRetro);
    assert_eq!(a.vessel().ctx().spawned_count(), 2);
    assert_eq!(a.vessel().ctx().spawned_at(0).name, "VesselA-AMR");
    assert_eq!(b.vessel().vehicle_state(), SurveyorState::BeforeRetroIgnition);
    assert_eq!(b.vessel().ctx().spawned_count(), 0);
    assert_eq!(b.vessel().ctx().empty_mass(), 35_780_000);

    // B ends exactly where its own inputs alone take it
    let mut solo = new_craft("VesselB");
    for t in 0..10 {
        dyn_vessel_pre_step(&mut solo, t, 1, 1);
    }
    assert_eq!(
        solo.vessel().ctx().empty_mass(),
        b.vessel().ctx().empty_mass()
    );
    assert_eq!(solo.vessel().vehicle_state(), b.vessel().vehicle_state());
}

#[test]
fn destroy_releases_ownership_once() {
    let mut bridge = new_craft("Surveyor1");
    dyn_vessel_pre_step(&mut bridge, 1, 1, 1);
    // Destruction consumes the bridge: dispatching afterwards, or
    // destroying twice, is rejected by the compiler, so the host's
    // exactly-once obligation cannot be violated from safe code.
    let craft = bridge.destroy();
    assert_eq!(craft.vehicle_state(), SurveyorState::BeforeRetroIgnition);
    drop(craft);
}

#[test]
fn key_up_events_are_not_handled() {
    let mut bridge = new_craft("Surveyor1");
    for code in [KEY_L, KEY_A, 0x39] {
        let mut ks = blank_keys();
        let r = dyn_vessel_consume_buffered_key(&mut bridge, Dword(code), false, &mut ks);
        assert_eq!(r, 0);
    }
    // no key-up event fired the retro
    assert_eq!(bridge.vessel().ctx().thruster_at(9).level_milli, 0);
}

#[test]
fn unshifted_l_key_fires_retro() {
    let mut bridge = new_craft("Surveyor1");
    let mut ks = blank_keys();
    let r = dyn_vessel_consume_buffered_key(&mut bridge, Dword(KEY_L), true, &mut ks);
    assert_eq!(r, 1);
    assert_eq!(bridge.vessel().ctx().thruster_at(9).level_milli, 1000);
}

#[test]
fn shifted_keys_are_left_to_host() {
    let mut bridge = new_craft("Surveyor1");
    let mut buf = vec![0u8; 256];
    buf[0x2A] = 0x80; // left shift held
    let mut ks = KeyStates::from(buf);
    let r = dyn_vessel_consume_buffered_key(&mut bridge, Dword(KEY_L), true, &mut ks);
    assert_eq!(r, 0);
    assert_eq!(bridge.vessel().ctx().thruster_at(9).level_milli, 0);
}

#[test]
fn other_unmodified_keys_are_consumed() {
    let mut bridge = new_craft("Surveyor1");
    let mut ks = blank_keys();
    let r = dyn_vessel_consume_buffered_key(&mut bridge, Dword(KEY_A), true, &mut ks);
    assert_eq!(r, 1);
    assert_eq!(bridge.vessel().ctx().thruster_at(9).level_milli, 0);
}

#[test]
fn scenario_lines_go_to_host_default_parsing() {
    let mut bridge = new_craft("Surveyor1");
    let lines = vec!["STATUS Landed Moon".to_string(), "FUEL 100".to_string()];
    let consumed = dyn_vessel_load_state_ex(&mut bridge, &lines);
    // the craft consumes none of them: each goes back for default parsing
    assert_eq!(consumed, vec![false, false]);
}

#[test]
fn scenario_save_writes_nothing() {
    let mut bridge = new_craft("Surveyor1");
    let lines = dyn_vessel_save_state(&mut bridge);
    assert_eq!(lines.len(), 0);
}

#[test]
fn post_step_changes_nothing() {
    let mut bridge = new_craft("Surveyor1");
    dyn_vessel_post_step(&mut bridge, 3, 1, 4);
    assert_eq!(bridge.vessel().vehicle_state(), SurveyorState::BeforeRetroIgnition);
    assert_eq!(bridge.vessel().ctx().empty_mass(), 28_910_000);
}
