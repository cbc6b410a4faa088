//! The example spacecraft: a staged lunar lander.
//!
//! The craft descends under a solid retro motor, then finishes on vernier
//! engines.  Its verified logic is the staging state machine — jettison
//! the altitude-marking radar (AMR) once the retro has begun burning,
//! jettison the spent retro case once its tank is nearly empty — together
//! with the empty-mass bookkeeping that follows the jettisoned parts and
//! the retro-fire key handling.  All masses are exact integers in
//! centigrams.  The craft's float geometry — thruster positions and
//! directions, touchdown points, differential attitude thrusting — lives
//! with the engine and the unverified rim; the decision logic here never
//! reads it.

use vstd::prelude::*;

use crate::context::ContextModel;
use crate::context::PropellantRecord;
use crate::context::ThrusterGroupType;
use crate::context::ThrusterRecord;
use crate::context::GroupModel;
use crate::context::SpawnModel;
use crate::context::VesselContext;
use crate::handles::ObjHandle;
use crate::handles::PropellantHandle;
use crate::handles::ThrusterHandle;
use crate::input::Key;
use crate::input::KeyStates;
use crate::input::key_is_down;
use crate::io::FileHandle;
use crate::vessel::OrbiterVessel;

verus! {

/// Vernier tank capacity, in centigrams (70.98 kg).
pub const VERNIER_PROP_MASS_CG: u64 = 7098000;

/// Attitude-jet tank capacity, in centigrams (2 kg).
pub const RCS_PROP_MASS_CG: u64 = 200000;

/// Retro tank capacity, in centigrams (560.64 kg).
pub const RETRO_PROP_MASS_CG: u64 = 56064000;

/// Mass of the bus and payload without AMR and retro case, in centigrams
/// (289.10 kg).
pub const LANDER_EMPTY_MASS_CG: u64 = 28910000;

/// Mass of the empty retro case, in centigrams (64.88 kg).
pub const RETRO_EMPTY_MASS_CG: u64 = 6488000;

/// Mass of the altitude-marking radar, in centigrams (3.82 kg).
pub const AMR_MASS_CG: u64 = 382000;

/// 99.9% of the retro tank's capacity: once the tank falls below this the
/// retro has ignited and the AMR is dropped.
pub const AMR_DETACH_MASS_CG: u64 = 56007936;

/// One kilogram of retro propellant: below this the retro is spent and
/// its case is dropped.
pub const RETRO_SPENT_MASS_CG: u64 = 100000;

/// Commanded retro thrust on ignition, in thousandths of full thrust.
pub const RETRO_FIRE_LEVEL_MILLI: u32 = 1000;

/// The staging state of the craft.
#[derive(Debug, Clone, Copy, PartialEq, Eq, Structural)]
pub enum SurveyorState {
    /// Retro not yet ignited; AMR still attached
    BeforeRetroIgnition,
    /// Retro burning; AMR dropped
    RetroFiring,
    /// Retro case dropped; verniers only
    AfterRetro,
}

impl Default for SurveyorState {
    /// A fresh craft still carries its AMR.
    fn default() -> (r: Self)
        ensures
            r == SurveyorState::BeforeRetroIgnition,
    {
        SurveyorState::BeforeRetroIgnition
    }
}

/// Mathematical state of a [`RustSpacecraft`]: the host resource table it
/// sees, the handles it has stored, and its staging state.
#[verifier::ext_equal]
pub ghost struct SpacecraftModel {
    /// The craft's window onto the host engine
    pub ctx: ContextModel,
    /// The three vernier engines, in creation order
    pub th_vernier: Seq<ThrusterHandle>,
    /// The six attitude jets, in creation order
    pub th_rcs: Seq<ThrusterHandle>,
    /// The retro motor
    pub th_retro: ThrusterHandle,
    /// The vernier tank
    pub ph_vernier: PropellantHandle,
    /// The retro tank
    pub ph_retro: PropellantHandle,
    /// The attitude-jet tank
    pub ph_rcs: PropellantHandle,
    /// The staging state
    pub vehicle_state: SurveyorState,
}

/// The mesh files shown for each staging state, in attachment order: the
/// craft draws its remaining stages only.
pub open spec fn mesh_names_for(state: SurveyorState) -> Seq<Seq<char>> {
    match state {
        SurveyorState::BeforeRetroIgnition => seq![
            "Surveyor-AMR"@,
            "Surveyor-Retro"@,
            "Surveyor-Lander"@,
        ],
        SurveyorState::RetroFiring => seq!["Surveyor-Retro"@, "Surveyor-Lander"@],
        SurveyorState::AfterRetro => seq!["Surveyor-Lander"@],
    }
}

/// How many further host objects the craft can still ask the engine to
/// spawn: one per remaining jettison.
pub open spec fn spawn_budget(state: SurveyorState) -> int {
    match state {
        SurveyorState::BeforeRetroIgnition => 2,
        SurveyorState::RetroFiring => 1,
        SurveyorState::AfterRetro => 0,
    }
}

impl SpacecraftModel {
    /// A freshly constructed craft: nothing registered yet, all handles
    /// unassigned, AMR attached, and room in the host's handle space for
    /// registration and both jettisons.
    pub open spec fn wf_fresh(self) -> bool {
        &&& self.ctx.wf()
        &&& self.ctx.next_handle + 22 <= usize::MAX
        &&& self.th_vernier.len() == 0
        &&& self.th_rcs.len() == 0
        &&& self.th_retro.0 == 0
        &&& self.ph_vernier.0 == 0
        &&& self.ph_retro.0 == 0
        &&& self.ph_rcs.0 == 0
        &&& self.vehicle_state == SurveyorState::BeforeRetroIgnition
    }

    /// A craft that has registered its resources: every stored handle
    /// resolves in the host table, the engine counts are right, and there
    /// is room in the host's handle space for the remaining jettisons.
    pub open spec fn wf_live(self) -> bool {
        &&& self.ctx.wf()
        &&& self.ctx.has_propellant(self.ph_vernier)
        &&& self.ctx.has_propellant(self.ph_rcs)
        &&& self.ctx.has_propellant(self.ph_retro)
        &&& self.ctx.has_thruster(self.th_retro)
        &&& self.ctx.next_handle + spawn_budget(self.vehicle_state) <= usize::MAX
        &&& self.th_vernier.len() == 3
        &&& self.th_rcs.len() == 6
    }
}

/// The craft's empty mass under the staging the retro tank reveals: the
/// AMR counts while the retro has not ignited, the retro case counts
/// while retro propellant remains, the lander bus always counts.
pub open spec fn surveyor_empty_mass(m: SpacecraftModel) -> u64 {
    let retro_mass = m.ctx.propellant_mass(m.ph_retro);
    (((if retro_mass > AMR_DETACH_MASS_CG {
        AMR_MASS_CG
    } else {
        0
    }) + (if retro_mass > RETRO_SPENT_MASS_CG {
        RETRO_EMPTY_MASS_CG
    } else {
        0
    }) + LANDER_EMPTY_MASS_CG) as u64)
}

/// One jettison: advance the staging state, ask the engine to spawn the
/// dropped part as a free object named after the craft, and re-attach the
/// meshes of the remaining stages.  After the retro case is gone there is
/// nothing left to drop.
pub open spec fn surveyor_jettison(m: SpacecraftModel) -> SpacecraftModel {
    let m2 = match m.vehicle_state {
        SurveyorState::BeforeRetroIgnition => SpacecraftModel {
            vehicle_state: SurveyorState::RetroFiring,
            ctx: ContextModel {
                next_handle: (m.ctx.next_handle + 1) as usize,
                spawned: m.ctx.spawned.push(
                    SpawnModel {
                        name: m.ctx.name + "-AMR"@,
                        classname: "Surveyor_AMR"@,
                        handle: ObjHandle(m.ctx.next_handle),
                    },
                ),
                ..m.ctx
            },
            ..m
        },
        SurveyorState::RetroFiring => SpacecraftModel {
            vehicle_state: SurveyorState::AfterRetro,
            ctx: ContextModel {
                next_handle: (m.ctx.next_handle + 1) as usize,
                spawned: m.ctx.spawned.push(
                    SpawnModel {
                        name: m.ctx.name + "-Retro"@,
                        classname: "Surveyor_Retro"@,
                        handle: ObjHandle(m.ctx.next_handle),
                    },
                ),
                ..m.ctx
            },
            ..m
        },
        SurveyorState::AfterRetro => m,
    };
    SpacecraftModel {
        ctx: ContextModel { meshes: mesh_names_for(m2.vehicle_state), ..m2.ctx },
        ..m2
    }
}

/// One pre-step tick: refresh the empty mass from the staging the retro
/// tank reveals, drop the retro case once its tank is nearly empty, and
/// drop the AMR — relighting the retro — once the retro has ignited.
pub open spec fn surveyor_pre_step(m: SpacecraftModel) -> SpacecraftModel {
    let retro_mass = m.ctx.propellant_mass(m.ph_retro);
    let m1 = SpacecraftModel {
        ctx: ContextModel { empty_mass_cg: surveyor_empty_mass(m), ..m.ctx },
        ..m
    };
    let m2 = if m1.vehicle_state == SurveyorState::RetroFiring && retro_mass
        < RETRO_SPENT_MASS_CG {
        surveyor_jettison(m1)
    } else {
        m1
    };
    if m2.vehicle_state == SurveyorState::BeforeRetroIgnition && retro_mass
        < AMR_DETACH_MASS_CG {
        let m3 = surveyor_jettison(m2);
        SpacecraftModel {
            ctx: ContextModel {
                thrusters: m3.ctx.thrusters.update(
                    m3.ctx.thruster_index(m3.th_retro),
                    ThrusterRecord {
                        level_milli: RETRO_FIRE_LEVEL_MILLI,
                        ..m3.ctx.thrusters[m3.ctx.thruster_index(m3.th_retro)]
                    },
                ),
                ..m3.ctx
            },
            ..m3
        }
    } else {
        m2
    }
}

/// Whether a buffered key event fires the retro: an unmodified key-down
/// of the retro-fire key.
pub open spec fn surveyor_key_fires_retro(key: Key, down: bool, kstate: Seq<u8>) -> bool {
    &&& down
    &&& !key_is_down(kstate, Key::LeftShift)
    &&& !key_is_down(kstate, Key::RightShift)
    &&& key == Key::L
}

/// State after a buffered key event: the retro-fire key lights the retro;
/// every other event leaves the craft unchanged.
pub open spec fn surveyor_key_next(
    m: SpacecraftModel,
    key: Key,
    down: bool,
    kstate: Seq<u8>,
) -> SpacecraftModel {
    if surveyor_key_fires_retro(key, down, kstate) {
        SpacecraftModel {
            ctx: ContextModel {
                thrusters: m.ctx.thrusters.update(
                    m.ctx.thruster_index(m.th_retro),
                    ThrusterRecord {
                        level_milli: RETRO_FIRE_LEVEL_MILLI,
                        ..m.ctx.thrusters[m.ctx.thruster_index(m.th_retro)]
                    },
                ),
                ..m.ctx
            },
            ..m
        }
    } else {
        m
    }
}

/// Status code of a buffered key event: key-up events and shifted keys
/// are left to the host; every unmodified key-down is consumed.
pub open spec fn surveyor_key_result(key: Key, down: bool, kstate: Seq<u8>) -> i32 {
    if !down {
        0
    } else if key_is_down(kstate, Key::LeftShift) || key_is_down(kstate, Key::RightShift) {
        0
    } else {
        1
    }
}

/// The host resource table after the craft registers its class
/// capabilities, starting from handle `n = m.ctx.next_handle`: three
/// tanks (`n` vernier, `n+1` attitude, `n+2` retro), the three vernier
/// engines (`n+3..n+5`) grouped as main engines (`n+6`), the six attitude
/// jets (`n+7..n+12`) in six attitude groups (`n+13..n+18`), the retro
/// motor (`n+19`), one exhaust definition per engine, the lander bus
/// empty mass, and the meshes of a fully stacked craft.
pub open spec fn surveyor_class_caps(m: SpacecraftModel) -> SpacecraftModel {
    let n = m.ctx.next_handle;
    let verniers = seq![
        ThrusterHandle((n + 3) as usize),
        ThrusterHandle((n + 4) as usize),
        ThrusterHandle((n + 5) as usize),
    ];
    let rcs = seq![
        ThrusterHandle((n + 7) as usize),
        ThrusterHandle((n + 8) as usize),
        ThrusterHandle((n + 9) as usize),
        ThrusterHandle((n + 10) as usize),
        ThrusterHandle((n + 11) as usize),
        ThrusterHandle((n + 12) as usize),
    ];
    let retro = ThrusterHandle((n + 19) as usize);
    SpacecraftModel {
        ctx: ContextModel {
            next_handle: (n + 20) as usize,
            propellants: m.ctx.propellants + seq![
                PropellantRecord {
                    handle: PropellantHandle(n),
                    max_mass_cg: VERNIER_PROP_MASS_CG,
                    current_mass_cg: VERNIER_PROP_MASS_CG,
                },
                PropellantRecord {
                    handle: PropellantHandle((n + 1) as usize),
                    max_mass_cg: RCS_PROP_MASS_CG,
                    current_mass_cg: RCS_PROP_MASS_CG,
                },
                PropellantRecord {
                    handle: PropellantHandle((n + 2) as usize),
                    max_mass_cg: RETRO_PROP_MASS_CG,
                    current_mass_cg: RETRO_PROP_MASS_CG,
                },
            ],
            thrusters: m.ctx.thrusters + seq![
                ThrusterRecord {
                    handle: verniers[0],
                    propellant: PropellantHandle(n),
                    level_milli: 0,
                },
                ThrusterRecord {
                    handle: verniers[1],
                    propellant: PropellantHandle(n),
                    level_milli: 0,
                },
                ThrusterRecord {
                    handle: verniers[2],
                    propellant: PropellantHandle(n),
                    level_milli: 0,
                },
                ThrusterRecord {
                    handle: rcs[0],
                    propellant: PropellantHandle((n + 1) as usize),
                    level_milli: 0,
                },
                ThrusterRecord {
                    handle: rcs[1],
                    propellant: PropellantHandle((n + 1) as usize),
                    level_milli: 0,
                },
                ThrusterRecord {
                    handle: rcs[2],
                    propellant: PropellantHandle((n + 1) as usize),
                    level_milli: 0,
                },
                ThrusterRecord {
                    handle: rcs[3],
                    propellant: PropellantHandle((n + 1) as usize),
                    level_milli: 0,
                },
                ThrusterRecord {
                    handle: rcs[4],
                    propellant: PropellantHandle((n + 1) as usize),
                    level_milli: 0,
                },
                ThrusterRecord {
                    handle: rcs[5],
                    propellant: PropellantHandle((n + 1) as usize),
                    level_milli: 0,
                },
                ThrusterRecord {
                    handle: retro,
                    propellant: PropellantHandle((n + 2) as usize),
                    level_milli: 0,
                },
            ],
            groups: m.ctx.groups + seq![
                GroupModel {
                    handle: crate::handles::ThrustGroupHandle((n + 6) as usize),
                    kind: ThrusterGroupType::Main,
                    members: verniers,
                },
                GroupModel {
                    handle: crate::handles::ThrustGroupHandle((n + 13) as usize),
                    kind: ThrusterGroupType::AttPitchdown,
                    members: seq![rcs[3], rcs[5]],
                },
                GroupModel {
                    handle: crate::handles::ThrustGroupHandle((n + 14) as usize),
                    kind: ThrusterGroupType::AttPitchup,
                    members: seq![rcs[2], rcs[4]],
                },
                GroupModel {
                    handle: crate::handles::ThrustGroupHandle((n + 15) as usize),
                    kind: ThrusterGroupType::AttBankright,
                    members: seq![rcs[0]],
                },
                GroupModel {
                    handle: crate::handles::ThrustGroupHandle((n + 16) as usize),
                    kind: ThrusterGroupType::AttBankleft,
                    members: seq![rcs[1], rcs[4]],
                },
                GroupModel {
                    handle: crate::handles::ThrustGroupHandle((n + 17) as usize),
                    kind: ThrusterGroupType::AttYawright,
                    members: seq![rcs[3], rcs[4]],
                },
                GroupModel {
                    handle: crate::handles::ThrustGroupHandle((n + 18) as usize),
                    kind: ThrusterGroupType::AttYawleft,
                    members: seq![rcs[2], rcs[5]],
                },
            ],
            exhausts: m.ctx.exhausts + verniers + rcs + seq![retro],
            meshes: mesh_names_for(SurveyorState::BeforeRetroIgnition),
            empty_mass_cg: LANDER_EMPTY_MASS_CG,
            ..m.ctx
        },
        th_vernier: verniers,
        th_rcs: rcs,
        th_retro: retro,
        ph_vernier: PropellantHandle(n),
        ph_rcs: PropellantHandle((n + 1) as usize),
        ph_retro: PropellantHandle((n + 2) as usize),
        vehicle_state: m.vehicle_state,
    }
}

/// The example spacecraft implementation of the vessel callback set.
#[derive(Debug)]
pub struct RustSpacecraft {
    ctx: VesselContext,
    th_vernier: Vec<ThrusterHandle>,
    th_rcs: Vec<ThrusterHandle>,
    th_retro: ThrusterHandle,
    ph_vernier: PropellantHandle,
    ph_retro: PropellantHandle,
    ph_rcs: PropellantHandle,
    vehicle_state: SurveyorState,
}

impl View for RustSpacecraft {
    type V = SpacecraftModel;

    closed spec fn view(&self) -> SpacecraftModel {
        SpacecraftModel {
            ctx: self.ctx@,
            th_vernier: self.th_vernier@,
            th_rcs: self.th_rcs@,
            th_retro: self.th_retro,
            ph_vernier: self.ph_vernier,
            ph_retro: self.ph_retro,
            ph_rcs: self.ph_rcs,
            vehicle_state: self.vehicle_state,
        }
    }
}

impl RustSpacecraft {
    /// A fresh craft around the context the host supplied at
    /// construction: nothing registered, all handles unassigned, AMR
    /// attached.
    pub fn new(ctx: VesselContext) -> (r: Self)
        ensures
            r@ == (SpacecraftModel {
                ctx: ctx@,
                th_vernier: Seq::empty(),
                th_rcs: Seq::empty(),
                th_retro: ThrusterHandle(0),
                ph_vernier: PropellantHandle(0),
                ph_retro: PropellantHandle(0),
                ph_rcs: PropellantHandle(0),
                vehicle_state: SurveyorState::BeforeRetroIgnition,
            }),
    {
        let r = RustSpacecraft {
            ctx,
            th_vernier: Vec::new(),
            th_rcs: Vec::new(),
            th_retro: ThrusterHandle(0),
            ph_vernier: PropellantHandle(0),
            ph_retro: PropellantHandle(0),
            ph_rcs: PropellantHandle(0),
            vehicle_state: SurveyorState::BeforeRetroIgnition,
        };
        proof {
            assert(r@.th_vernier =~= Seq::<ThrusterHandle>::empty());
            assert(r@.th_rcs =~= Seq::<ThrusterHandle>::empty());
        }
        r
    }

    /// The craft's window onto the host engine.
    pub fn ctx(&self) -> (r: &VesselContext)
        ensures
            r@ == self@.ctx,
    {
        &self.ctx
    }

    /// Mutable access to the craft's window onto the host engine; this is
    /// how the host side of the physics writes tank state between ticks.
    pub fn ctx_mut(&mut self) -> (r: &mut VesselContext)
        ensures
            (*r)@ == old(self)@.ctx,
            final(self)@ == (SpacecraftModel { ctx: final(r)@, ..old(self)@ }),
    {
        &mut self.ctx
    }

    /// The staging state of the craft.
    pub fn vehicle_state(&self) -> (r: SurveyorState)
        ensures
            r == self@.vehicle_state,
    {
        self.vehicle_state
    }

    /// The handle of the retro tank.
    pub fn ph_retro(&self) -> (r: PropellantHandle)
        ensures
            r == self@.ph_retro,
    {
        self.ph_retro
    }

    /// The handle of the retro motor.
    pub fn th_retro(&self) -> (r: ThrusterHandle)
        ensures
            r == self@.th_retro,
    {
        self.th_retro
    }

    /// Re-attach the meshes of the stages the craft still carries.
    pub fn setup_meshes(&mut self)
        ensures
            final(self)@ == (SpacecraftModel {
                ctx: ContextModel {
                    meshes: mesh_names_for(old(self)@.vehicle_state),
                    ..old(self)@.ctx
                },
                ..old(self)@
            }),
    {
        self.ctx.ClearMeshes();
        match self.vehicle_state {
            SurveyorState::BeforeRetroIgnition => {
                self.ctx.AddMesh(String::from_str("Surveyor-AMR"));
                self.ctx.AddMesh(String::from_str("Surveyor-Retro"));
                self.ctx.AddMesh(String::from_str("Surveyor-Lander"));
            },
            SurveyorState::RetroFiring => {
                self.ctx.AddMesh(String::from_str("Surveyor-Retro"));
                self.ctx.AddMesh(String::from_str("Surveyor-Lander"));
            },
            SurveyorState::AfterRetro => {
                self.ctx.AddMesh(String::from_str("Surveyor-Lander"));
            },
        }
        proof {
            assert(self@.ctx.meshes =~= mesh_names_for(old(self)@.vehicle_state));
            assert(self@ =~= (SpacecraftModel {
                ctx: ContextModel {
                    meshes: mesh_names_for(old(self)@.vehicle_state),
                    ..old(self)@.ctx
                },
                ..old(self)@
            }));
        }
    }

    /// The craft's current empty mass, following the parts still
    /// attached.
    pub fn calc_empty_mass(&self) -> (r: u64)
        requires
            self@.ctx.wf(),
            self@.ctx.has_propellant(self@.ph_retro),
        ensures
            r == surveyor_empty_mass(self@),
    {
        let mut empty_mass: u64 = 0;
        // Jettison AMR when retro starts firing
        if self.ctx.GetPropellantMass(self.ph_retro) > AMR_DETACH_MASS_CG {
            empty_mass = empty_mass + AMR_MASS_CG;
        }
        // Add in retro mass while there is still retro fuel left
        if self.ctx.GetPropellantMass(self.ph_retro) > RETRO_SPENT_MASS_CG {
            empty_mass = empty_mass + RETRO_EMPTY_MASS_CG;
        }
        empty_mass + LANDER_EMPTY_MASS_CG
    }

    /// Ask the engine to spawn a dropped part as a free object, named
    /// after the craft with the given suffix.
    fn spawn_object(&mut self, classname: &str, ext: &str)
        requires
            old(self)@.ctx.wf(),
            old(self)@.ctx.next_handle < usize::MAX,
        ensures
            final(self)@ == (SpacecraftModel {
                ctx: ContextModel {
                    next_handle: (old(self)@.ctx.next_handle + 1) as usize,
                    spawned: old(self)@.ctx.spawned.push(
                        SpawnModel {
                            name: old(self)@.ctx.name + ext@,
                            classname: classname@,
                            handle: ObjHandle(old(self)@.ctx.next_handle),
                        },
                    ),
                    ..old(self)@.ctx
                },
                ..old(self)@
            }),
            final(self)@.ctx.wf(),
    {
        let new_object_name = self.ctx.GetName().concat(ext);
        let _ = self.ctx.CreateVessel(new_object_name, String::from_str(classname));
    }

    /// Drop the next stage: advance the staging state, spawn the dropped
    /// part, and re-attach the remaining meshes.
    fn jettison(&mut self)
        requires
            old(self)@.wf_live(),
        ensures
            final(self)@ == surveyor_jettison(old(self)@),
            final(self)@.wf_live(),
    {
        match self.vehicle_state {
            SurveyorState::BeforeRetroIgnition => {
                self.vehicle_state = SurveyorState::RetroFiring;
                self.spawn_object("Surveyor_AMR", "-AMR");
            },
            SurveyorState::RetroFiring => {
                self.vehicle_state = SurveyorState::AfterRetro;
                self.spawn_object("Surveyor_Retro", "-Retro");
            },
            SurveyorState::AfterRetro => {},
        }
        self.setup_meshes();
        proof {
            let m0 = old(self)@;
            assert(self@ =~= surveyor_jettison(m0));
            assert(self@.ctx.propellants == m0.ctx.propellants);
            assert(self@.ctx.thrusters == m0.ctx.thrusters);
            let pv = choose|i: int|
                0 <= i < m0.ctx.propellants.len() && (#[trigger] m0.ctx.propellants[i]).handle
                    == m0.ph_vernier;
            assert(self@.ctx.propellants[pv].handle == self@.ph_vernier);
            let pr = choose|i: int|
                0 <= i < m0.ctx.propellants.len() && (#[trigger] m0.ctx.propellants[i]).handle
                    == m0.ph_rcs;
            assert(self@.ctx.propellants[pr].handle == self@.ph_rcs);
            let pt = choose|i: int|
                0 <= i < m0.ctx.propellants.len() && (#[trigger] m0.ctx.propellants[i]).handle
                    == m0.ph_retro;
            assert(self@.ctx.propellants[pt].handle == self@.ph_retro);
            let tr = choose|i: int|
                0 <= i < m0.ctx.thrusters.len() && (#[trigger] m0.ctx.thrusters[i]).handle
                    == m0.th_retro;
            assert(self@.ctx.thrusters[tr].handle == self@.th_retro);
            assert(self@.wf_live());
        }
    }
}

impl OrbiterVessel for RustSpacecraft {
    open spec fn caps_pre(m: SpacecraftModel) -> bool {
        m.wf_fresh()
    }

    open spec fn step_pre(m: SpacecraftModel) -> bool {
        m.wf_live()
    }

    open spec fn class_caps_next(m: SpacecraftModel, cfg: FileHandle) -> SpacecraftModel {
        surveyor_class_caps(m)
    }

    open spec fn pre_step_next(
        m: SpacecraftModel,
        sim_t: u64,
        sim_dt: u64,
        mjd: u64,
    ) -> SpacecraftModel {
        surveyor_pre_step(m)
    }

    open spec fn post_step_next(
        m: SpacecraftModel,
        sim_t: u64,
        sim_dt: u64,
        mjd: u64,
    ) -> SpacecraftModel {
        m
    }

    open spec fn key_next(
        m: SpacecraftModel,
        key: Key,
        down: bool,
        kstate: Seq<u8>,
    ) -> SpacecraftModel {
        surveyor_key_next(m, key, down, kstate)
    }

    open spec fn key_states_next(
        m: SpacecraftModel,
        key: Key,
        down: bool,
        kstate: Seq<u8>,
    ) -> Seq<u8> {
        kstate
    }

    open spec fn key_result(m: SpacecraftModel, key: Key, down: bool, kstate: Seq<u8>) -> i32 {
        surveyor_key_result(key, down, kstate)
    }

    open spec fn load_param_next(m: SpacecraftModel, line: Seq<char>) -> SpacecraftModel {
        m
    }

    open spec fn load_param_consumed(m: SpacecraftModel, line: Seq<char>) -> bool {
        false
    }

    open spec fn save_state_next(m: SpacecraftModel) -> SpacecraftModel {
        m
    }

    open spec fn save_state_lines(m: SpacecraftModel) -> Seq<Seq<char>> {
        Seq::empty()
    }

    #[verifier::rlimit(100)]
    fn set_class_caps(&mut self, cfg: FileHandle) {
        // The craft's float geometry — touchdown points, inertia, camera,
        // thruster positions and directions, thrust and specific impulse —
        // is applied by the rim; the table here records the resources and
        // their wiring.
        self.ph_vernier = self.ctx.CreatePropellantResource(VERNIER_PROP_MASS_CG);
        self.ph_rcs = self.ctx.CreatePropellantResource(RCS_PROP_MASS_CG);
        self.ph_retro = self.ctx.CreatePropellantResource(RETRO_PROP_MASS_CG);
        proof {
            let p = self@.ctx.propellants;
            assert(p[p.len() - 3].handle == self.ph_vernier);
            assert(p[p.len() - 2].handle == self.ph_rcs);
            assert(p[p.len() - 1].handle == self.ph_retro);
            assert(self@.ctx.has_propellant(self.ph_vernier));
            assert(self@.ctx.has_propellant(self.ph_rcs));
            assert(self@.ctx.has_propellant(self.ph_retro));
        }

        let t0 = self.ctx.CreateThruster(self.ph_vernier);
        self.th_vernier.push(t0);
        proof {
            let p = self@.ctx.propellants;
            assert(p[p.len() - 3].handle == self.ph_vernier);
            assert(self@.ctx.has_propellant(self.ph_vernier));
        }
        let t1 = self.ctx.CreateThruster(self.ph_vernier);
        self.th_vernier.push(t1);
        proof {
            let p = self@.ctx.propellants;
            assert(p[p.len() - 3].handle == self.ph_vernier);
            assert(self@.ctx.has_propellant(self.ph_vernier));
        }
        let t2 = self.ctx.CreateThruster(self.ph_vernier);
        self.th_vernier.push(t2);
        let _ = self.ctx.CreateThrusterGroup(&self.th_vernier, ThrusterGroupType::Main);
        let _ = self.ctx.AddExhaust(t0);
        let _ = self.ctx.AddExhaust(t1);
        let _ = self.ctx.AddExhaust(t2);

        // Roll (leg 1) jets
        proof {
            let p = self@.ctx.propellants;
            assert(p[p.len() - 2].handle == self.ph_rcs);
            assert(self@.ctx.has_propellant(self.ph_rcs));
        }
        let r0 = self.ctx.CreateThruster(self.ph_rcs);
        self.th_rcs.push(r0);
        proof {
            let p = self@.ctx.propellants;
            assert(p[p.len() - 2].handle == self.ph_rcs);
            assert(self@.ctx.has_propellant(self.ph_rcs));
        }
        let r1 = self.ctx.CreateThruster(self.ph_rcs);
        self.th_rcs.push(r1);
        // Leg 2 jets
        proof {
            let p = self@.ctx.propellants;
            assert(p[p.len() - 2].handle == self.ph_rcs);
            assert(self@.ctx.has_propellant(self.ph_rcs));
        }
        let r2 = self.ctx.CreateThruster(self.ph_rcs);
        self.th_rcs.push(r2);
        proof {
            let p = self@.ctx.propellants;
            assert(p[p.len() - 2].handle == self.ph_rcs);
            assert(self@.ctx.has_propellant(self.ph_rcs));
        }
        let r3 = self.ctx.CreateThruster(self.ph_rcs);
        self.th_rcs.push(r3);
        // Leg 3 jets
        proof {
            let p = self@.ctx.propellants;
            assert(p[p.len() - 2].handle == self.ph_rcs);
            assert(self@.ctx.has_propellant(self.ph_rcs));
        }
        let r4 = self.ctx.CreateThruster(self.ph_rcs);
        self.th_rcs.push(r4);
        proof {
            let p = self@.ctx.propellants;
            assert(p[p.len() - 2].handle == self.ph_rcs);
            assert(self@.ctx.has_propellant(self.ph_rcs));
        }
        let r5 = self.ctx.CreateThruster(self.ph_rcs);
        self.th_rcs.push(r5);

        let mut th_group: Vec<ThrusterHandle> = Vec::new();
        th_group.push(r3);
        th_group.push(r5);
        let _ = self.ctx.CreateThrusterGroup(&th_group, ThrusterGroupType::AttPitchdown);

        th_group.set(0, r2);
        th_group.set(1, r4);
        let _ = self.ctx.CreateThrusterGroup(&th_group, ThrusterGroupType::AttPitchup);

        let mut th_single: Vec<ThrusterHandle> = Vec::new();
        th_single.push(r0);
        let _ = self.ctx.CreateThrusterGroup(&th_single, ThrusterGroupType::AttBankright);

        // The second slot still carries the jet set for pitch-up; the
        // bank-left group keeps it, exactly as the craft has always been
        // wired.
        th_group.set(0, r1);
        let _ = self.ctx.CreateThrusterGroup(&th_group, ThrusterGroupType::AttBankleft);

        th_group.set(0, r3);
        th_group.set(1, r4);
        let _ = self.ctx.CreateThrusterGroup(&th_group, ThrusterGroupType::AttYawright);

        th_group.set(0, r2);
        th_group.set(1, r5);
        let _ = self.ctx.CreateThrusterGroup(&th_group, ThrusterGroupType::AttYawleft);

        let _ = self.ctx.AddExhaust(r0);
        let _ = self.ctx.AddExhaust(r1);
        let _ = self.ctx.AddExhaust(r2);
        let _ = self.ctx.AddExhaust(r3);
        let _ = self.ctx.AddExhaust(r4);
        let _ = self.ctx.AddExhaust(r5);

        proof {
            let p = self@.ctx.propellants;
            assert(p[p.len() - 1].handle == self.ph_retro);
            assert(self@.ctx.has_propellant(self.ph_retro));
        }
        self.th_retro = self.ctx.CreateThruster(self.ph_retro);
        let _ = self.ctx.AddExhaust(self.th_retro);

        self.ctx.SetEmptyMass(LANDER_EMPTY_MASS_CG);
        self.setup_meshes();
        proof {
            let m = old(self)@;
            let n = m.ctx.next_handle;
            assert(self@.ctx.propellants =~= surveyor_class_caps(m).ctx.propellants);
            assert(self@.ctx.thrusters =~= surveyor_class_caps(m).ctx.thrusters);
            assert(self@.ctx.groups =~~= surveyor_class_caps(m).ctx.groups);
            assert(self@.ctx.exhausts =~= surveyor_class_caps(m).ctx.exhausts);
            assert(self@.th_vernier =~= surveyor_class_caps(m).th_vernier);
            assert(self@.th_rcs =~= surveyor_class_caps(m).th_rcs);
            assert(self@ =~= surveyor_class_caps(m));
            let f = self@;
            assert(f.ctx.propellants[f.ctx.propellants.len() - 3].handle == f.ph_vernier);
            assert(f.ctx.propellants[f.ctx.propellants.len() - 2].handle == f.ph_rcs);
            assert(f.ctx.propellants[f.ctx.propellants.len() - 1].handle == f.ph_retro);
            assert(f.ctx.has_propellant(f.ph_vernier));
            assert(f.ctx.has_propellant(f.ph_rcs));
            assert(f.ctx.has_propellant(f.ph_retro));
            assert(f.ctx.thrusters[f.ctx.thrusters.len() - 1].handle == f.th_retro);
            assert(f.ctx.has_thruster(f.th_retro));
        }
    }

    fn on_pre_step(&mut self, sim_t: u64, sim_dt: u64, mjd: u64) {
        let empty_mass = self.calc_empty_mass();
        self.ctx.SetEmptyMass(empty_mass);
        // Differential vernier thrusting for attitude control is pure
        // float geometry; the rim derives it from the attitude group
        // levels and applies it directly.
        if self.vehicle_state == SurveyorState::RetroFiring && self.ctx.GetPropellantMass(
            self.ph_retro,
        ) < RETRO_SPENT_MASS_CG {
            // Jettison the spent main retro
            self.jettison();
        }
        proof {
            let m0 = old(self)@;
            let f = self@;
            assert(f.ctx.propellants == m0.ctx.propellants);
            assert(f.ctx.thrusters == m0.ctx.thrusters);
            let pv = choose|i: int|
                0 <= i < m0.ctx.propellants.len() && (#[trigger] m0.ctx.propellants[i]).handle
                    == m0.ph_vernier;
            assert(f.ctx.propellants[pv].handle == f.ph_vernier);
            let pr = choose|i: int|
                0 <= i < m0.ctx.propellants.len() && (#[trigger] m0.ctx.propellants[i]).handle
                    == m0.ph_rcs;
            assert(f.ctx.propellants[pr].handle == f.ph_rcs);
            let pt = choose|i: int|
                0 <= i < m0.ctx.propellants.len() && (#[trigger] m0.ctx.propellants[i]).handle
                    == m0.ph_retro;
            assert(f.ctx.propellants[pt].handle == f.ph_retro);
            let tr = choose|i: int|
                0 <= i < m0.ctx.thrusters.len() && (#[trigger] m0.ctx.thrusters[i]).handle
                    == m0.th_retro;
            assert(f.ctx.thrusters[tr].handle == f.th_retro);
            assert(f.wf_live());
        }
        if self.vehicle_state == SurveyorState::BeforeRetroIgnition && self.ctx.GetPropellantMass(
            self.ph_retro,
        ) < AMR_DETACH_MASS_CG {
            // Jettison the AMR if the retro has started burning
            self.jettison();
            // Relight the retro if needed
            self.ctx.SetThrusterLevel(self.th_retro, RETRO_FIRE_LEVEL_MILLI);
        }
        proof {
            let m0 = old(self)@;
            assert(self@ =~= surveyor_pre_step(m0));
            let f = self@;
            assert(f.ctx.propellants == m0.ctx.propellants);
            let pv = choose|i: int|
                0 <= i < m0.ctx.propellants.len() && (#[trigger] m0.ctx.propellants[i]).handle
                    == m0.ph_vernier;
            assert(f.ctx.propellants[pv].handle == f.ph_vernier);
            let pr = choose|i: int|
                0 <= i < m0.ctx.propellants.len() && (#[trigger] m0.ctx.propellants[i]).handle
                    == m0.ph_rcs;
            assert(f.ctx.propellants[pr].handle == f.ph_rcs);
            let pt = choose|i: int|
                0 <= i < m0.ctx.propellants.len() && (#[trigger] m0.ctx.propellants[i]).handle
                    == m0.ph_retro;
            assert(f.ctx.propellants[pt].handle == f.ph_retro);
            let tr = choose|i: int|
                0 <= i < m0.ctx.thrusters.len() && (#[trigger] m0.ctx.thrusters[i]).handle
                    == m0.th_retro;
            assert(f.ctx.thrusters[tr].handle == f.th_retro);
            assert(f.ctx.has_thruster(f.th_retro));
            assert(f.wf_live());
        }
    }

    fn on_post_step(&mut self, sim_t: u64, sim_dt: u64, mjd: u64) {
    }

    fn consume_buffered_key(&mut self, key: Key, down: bool, kstate: &mut KeyStates) -> (r: i32) {
        let r: i32 = if !down {
            0
        } else if kstate.shift() {
            0
        } else {
            // unmodified keys
            if key == Key::L {
                // Fire retro
                self.ctx.SetThrusterLevel(self.th_retro, RETRO_FIRE_LEVEL_MILLI);
            }
            1
        };
        proof {
            let m0 = old(self)@;
            assert(self@ =~= surveyor_key_next(m0, key, down, old(kstate)@));
            let f = self@;
            assert(f.ctx.propellants == m0.ctx.propellants);
            let pv = choose|i: int|
                0 <= i < m0.ctx.propellants.len() && (#[trigger] m0.ctx.propellants[i]).handle
                    == m0.ph_vernier;
            assert(f.ctx.propellants[pv].handle == f.ph_vernier);
            let pr = choose|i: int|
                0 <= i < m0.ctx.propellants.len() && (#[trigger] m0.ctx.propellants[i]).handle
                    == m0.ph_rcs;
            assert(f.ctx.propellants[pr].handle == f.ph_rcs);
            let pt = choose|i: int|
                0 <= i < m0.ctx.propellants.len() && (#[trigger] m0.ctx.propellants[i]).handle
                    == m0.ph_retro;
            assert(f.ctx.propellants[pt].handle == f.ph_retro);
            let tr = choose|i: int|
                0 <= i < m0.ctx.thrusters.len() && (#[trigger] m0.ctx.thrusters[i]).handle
                    == m0.th_retro;
            assert(f.ctx.thrusters[tr].handle == f.th_retro);
            assert(f.ctx.has_thruster(f.th_retro));
            assert(f.wf_live());
        }
        r
    }

    fn on_load_param(&mut self, line: &str) -> (consumed: bool) {
        false
    }

    fn on_save_state(&mut self) -> (lines: Vec<String>) {
        let lines: Vec<String> = Vec::new();
        proof {
            assert(lines@.map_values(|s: String| s@) =~= Seq::<Seq<char>>::empty());
        }
        lines
    }
}

/// Law: a key-up event is never consumed — whatever the key and the
/// modifier state, the craft reports "not handled" and changes nothing.
pub proof fn lemma_key_up_not_handled(m: SpacecraftModel, key: Key, kstate: Seq<u8>)
    ensures
        surveyor_key_result(key, false, kstate) == 0,
        surveyor_key_next(m, key, false, kstate) == m,
{
}

} // verus!
