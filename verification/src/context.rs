//! Resource-table model of the host's vessel context.
//!
//! During its callbacks a vessel implementation issues commands to the host
//! engine — create a fuel tank, create a thruster, group thrusters, attach
//! meshes, set masses and thrust levels — and queries host state such as
//! the remaining propellant of a tank.  The host assigns every created
//! resource an opaque handle that the vessel stores and reuses.
//!
//! [`VesselContext`] is the verified model of that interface: a table of
//! the resources the vessel has registered, with deterministic handle
//! assignment and exact contracts for every command and query.  Vessel
//! logic is specified and proved against this model; the unverified rim
//! mirrors each command to the real engine, which holds physical
//! parameters — positions, directions, thrust and specific impulse — that
//! the decision logic never reads.  Masses are carried in centigrams so
//! that every quantity the logic compares is an exact integer.

use vstd::prelude::*;

use crate::handles::ObjHandle;
use crate::handles::PropellantHandle;
use crate::handles::ThrustGroupHandle;
use crate::handles::ThrusterHandle;

verus! {

/// The default thruster group kinds understood by the host engine.
#[derive(Debug, Clone, Copy, PartialEq, Eq, Structural)]
pub enum ThrusterGroupType {
    /// Main thrusters
    Main,
    /// Retro thrusters
    Retro,
    /// Hover thrusters
    Hover,
    /// Rotation: pitch up
    AttPitchup,
    /// Rotation: pitch down
    AttPitchdown,
    /// Rotation: yaw left
    AttYawleft,
    /// Rotation: yaw right
    AttYawright,
    /// Rotation: bank left
    AttBankleft,
    /// Rotation: bank right
    AttBankright,
    /// Translation: move right
    AttRight,
    /// Translation: move left
    AttLeft,
    /// Translation: move up
    AttUp,
    /// Translation: move down
    AttDown,
    /// Translation: move forward
    AttForward,
    /// Translation: move back
    AttBack,
    /// A user-defined group
    User,
}

/// One propellant resource ("fuel tank") the host manages for the vessel.
#[derive(Debug, Clone, Copy, PartialEq, Eq, Structural)]
pub struct PropellantRecord {
    /// Handle the host assigned to the tank
    pub handle: PropellantHandle,
    /// Capacity of the tank, in centigrams
    pub max_mass_cg: u64,
    /// Propellant currently in the tank, in centigrams
    pub current_mass_cg: u64,
}

/// One logical thruster definition the host manages for the vessel.
#[derive(Debug, Clone, Copy, PartialEq, Eq, Structural)]
pub struct ThrusterRecord {
    /// Handle the host assigned to the thruster
    pub handle: ThrusterHandle,
    /// The tank the thruster draws from
    pub propellant: PropellantHandle,
    /// Commanded thrust level in thousandths of full thrust
    pub level_milli: u32,
}

/// One logical thruster group.
#[derive(Debug, Clone)]
pub struct GroupRecord {
    /// Handle the host assigned to the group
    pub handle: ThrustGroupHandle,
    /// Which of the engine's group slots the group fills
    pub kind: ThrusterGroupType,
    /// The member thrusters, in the order they were given
    pub members: Vec<ThrusterHandle>,
}

/// Mathematical value of a [`GroupRecord`].
#[verifier::ext_equal]
pub ghost struct GroupModel {
    /// Handle the host assigned to the group
    pub handle: ThrustGroupHandle,
    /// Which of the engine's group slots the group fills
    pub kind: ThrusterGroupType,
    /// The member thrusters, in the order they were given
    pub members: Seq<ThrusterHandle>,
}

impl View for GroupRecord {
    type V = GroupModel;

    open spec fn view(&self) -> GroupModel {
        GroupModel { handle: self.handle, kind: self.kind, members: self.members@ }
    }
}

/// One host-managed object the vessel asked the engine to spawn.
#[derive(Debug, Clone)]
pub struct SpawnRecord {
    /// Name given to the new object
    pub name: String,
    /// Configuration class of the new object
    pub classname: String,
    /// Handle the host assigned to the new object
    pub handle: ObjHandle,
}

/// Mathematical value of a [`SpawnRecord`].
#[verifier::ext_equal]
pub ghost struct SpawnModel {
    /// Name given to the new object
    pub name: Seq<char>,
    /// Configuration class of the new object
    pub classname: Seq<char>,
    /// Handle the host assigned to the new object
    pub handle: ObjHandle,
}

impl View for SpawnRecord {
    type V = SpawnModel;

    open spec fn view(&self) -> SpawnModel {
        SpawnModel { name: self.name@, classname: self.classname@, handle: self.handle }
    }
}

/// Mathematical value of a [`VesselContext`]: the full resource table.
#[verifier::ext_equal]
pub ghost struct ContextModel {
    /// The host-assigned name of the vessel
    pub name: Seq<char>,
    /// The next handle value the host will assign
    pub next_handle: usize,
    /// Registered fuel tanks, in creation order
    pub propellants: Seq<PropellantRecord>,
    /// Registered thrusters, in creation order
    pub thrusters: Seq<ThrusterRecord>,
    /// Registered thruster groups, in creation order
    pub groups: Seq<GroupModel>,
    /// Thrusters given an exhaust render definition, one entry per call
    pub exhausts: Seq<ThrusterHandle>,
    /// Names of the meshes currently attached, in attachment order
    pub meshes: Seq<Seq<char>>,
    /// The vessel's empty mass (excluding propellants), in centigrams
    pub empty_mass_cg: u64,
    /// Objects the vessel asked the engine to spawn, in request order
    pub spawned: Seq<SpawnModel>,
}

impl ContextModel {
    /// Every handle the table holds was assigned below `next_handle`, no
    /// handle was assigned twice, handle zero is never assigned, tanks do
    /// not hold more than their capacity, and thrust levels do not exceed
    /// full thrust.
    pub open spec fn wf(self) -> bool {
        &&& 1 <= self.next_handle
        &&& forall|i: int|
            0 <= i < self.propellants.len() ==> 1 <= (#[trigger] self.propellants[i]).handle.0
                < self.next_handle
        &&& forall|i: int|
            0 <= i < self.thrusters.len() ==> 1 <= (#[trigger] self.thrusters[i]).handle.0
                < self.next_handle
        &&& forall|i: int|
            0 <= i < self.groups.len() ==> 1 <= (#[trigger] self.groups[i]).handle.0
                < self.next_handle
        &&& forall|i: int, j: int|
            0 <= i < j < self.propellants.len() ==> (#[trigger] self.propellants[i]).handle != (
            #[trigger] self.propellants[j]).handle
        &&& forall|i: int, j: int|
            0 <= i < j < self.thrusters.len() ==> (#[trigger] self.thrusters[i]).handle != (
            #[trigger] self.thrusters[j]).handle
        &&& forall|i: int, j: int|
            0 <= i < j < self.groups.len() ==> (#[trigger] self.groups[i]).handle != (
            #[trigger] self.groups[j]).handle
        &&& forall|i: int|
            0 <= i < self.propellants.len() ==> (#[trigger] self.propellants[i]).current_mass_cg
                <= self.propellants[i].max_mass_cg
        &&& forall|i: int|
            0 <= i < self.thrusters.len() ==> (#[trigger] self.thrusters[i]).level_milli <= 1000
    }

    /// Whether the table holds a tank under handle `ph`.
    pub open spec fn has_propellant(self, ph: PropellantHandle) -> bool {
        exists|i: int|
            0 <= i < self.propellants.len() && (#[trigger] self.propellants[i]).handle == ph
    }

    /// The table index of the tank under handle `ph`; meaningful only
    /// where [`ContextModel::has_propellant`] holds — under [`ContextModel::wf`]
    /// it is then unique.
    pub open spec fn propellant_index(self, ph: PropellantHandle) -> int {
        choose|i: int|
            0 <= i < self.propellants.len() && (#[trigger] self.propellants[i]).handle == ph
    }

    /// The propellant currently in the tank under handle `ph`, in
    /// centigrams.
    pub open spec fn propellant_mass(self, ph: PropellantHandle) -> u64 {
        self.propellants[self.propellant_index(ph)].current_mass_cg
    }

    /// The capacity of the tank under handle `ph`, in centigrams.
    pub open spec fn propellant_max(self, ph: PropellantHandle) -> u64 {
        self.propellants[self.propellant_index(ph)].max_mass_cg
    }

    /// Whether the table holds a thruster under handle `th`.
    pub open spec fn has_thruster(self, th: ThrusterHandle) -> bool {
        exists|i: int| 0 <= i < self.thrusters.len() && (#[trigger] self.thrusters[i]).handle == th
    }

    /// The table index of the thruster under handle `th`; meaningful only
    /// where [`ContextModel::has_thruster`] holds.
    pub open spec fn thruster_index(self, th: ThrusterHandle) -> int {
        choose|i: int| 0 <= i < self.thrusters.len() && (#[trigger] self.thrusters[i]).handle == th
    }

    /// The commanded level of the thruster under handle `th`, in
    /// thousandths of full thrust.
    pub open spec fn thruster_level(self, th: ThrusterHandle) -> u32 {
        self.thrusters[self.thruster_index(th)].level_milli
    }
}

/// The verified model of the host's per-vessel interface: the table of
/// resources the vessel has registered with the engine, with
/// deterministic handle assignment.  The unverified rim mirrors each
/// command to the real engine and feeds real host state back in through
/// the same operations.
#[derive(Debug, Clone)]
pub struct VesselContext {
    name: String,
    next_handle: usize,
    propellants: Vec<PropellantRecord>,
    thrusters: Vec<ThrusterRecord>,
    groups: Vec<GroupRecord>,
    exhausts: Vec<ThrusterHandle>,
    meshes: Vec<String>,
    empty_mass_cg: u64,
    spawned: Vec<SpawnRecord>,
}

impl View for VesselContext {
    type V = ContextModel;

    closed spec fn view(&self) -> ContextModel {
        ContextModel {
            name: self.name@,
            next_handle: self.next_handle,
            propellants: self.propellants@,
            thrusters: self.thrusters@,
            groups: self.groups@.map_values(|g: GroupRecord| g@),
            exhausts: self.exhausts@,
            meshes: self.meshes@.map_values(|s: String| s@),
            empty_mass_cg: self.empty_mass_cg,
            spawned: self.spawned@.map_values(|s: SpawnRecord| s@),
        }
    }
}

#[allow(non_snake_case)]
impl VesselContext {
    /// A fresh context for a vessel the host is constructing, with the
    /// host-assigned vessel name and an empty resource table.
    pub fn new(name: String) -> (r: Self)
        ensures
            r@ == (ContextModel {
                name: name@,
                next_handle: 1,
                propellants: Seq::empty(),
                thrusters: Seq::empty(),
                groups: Seq::empty(),
                exhausts: Seq::empty(),
                meshes: Seq::empty(),
                empty_mass_cg: 0,
                spawned: Seq::empty(),
            }),
            r@.wf(),
    {
        let r = VesselContext {
            name,
            next_handle: 1,
            propellants: Vec::new(),
            thrusters: Vec::new(),
            groups: Vec::new(),
            exhausts: Vec::new(),
            meshes: Vec::new(),
            empty_mass_cg: 0,
            spawned: Vec::new(),
        };
        proof {
            assert(r@.groups =~= Seq::<GroupModel>::empty());
            assert(r@.meshes =~= Seq::<Seq<char>>::empty());
            assert(r@.spawned =~= Seq::<SpawnModel>::empty());
        }
        r
    }

    /// The host-assigned name of the vessel.
    pub fn GetName(&self) -> (r: String)
        ensures
            r@ == self@.name,
    {
        self.name.clone()
    }

    /// Create a new propellant resource ("fuel tank") of the given
    /// capacity, initially full.  The host assigns the next free handle.
    pub fn CreatePropellantResource(&mut self, max_mass_cg: u64) -> (ph: PropellantHandle)
        requires
            old(self)@.wf(),
            old(self)@.next_handle < usize::MAX,
        ensures
            ph.0 == old(self)@.next_handle,
            final(self)@ == (ContextModel {
                next_handle: (old(self)@.next_handle + 1) as usize,
                propellants: old(self)@.propellants.push(
                    PropellantRecord { handle: ph, max_mass_cg, current_mass_cg: max_mass_cg },
                ),
                ..old(self)@
            }),
            final(self)@.wf(),
    {
        let ph = PropellantHandle(self.next_handle);
        self.next_handle = self.next_handle + 1;
        self.propellants.push(
            PropellantRecord { handle: ph, max_mass_cg, current_mass_cg: max_mass_cg },
        );
        ph
    }

    /// Add a logical thruster drawing from the tank `ph`, with no thrust
    /// commanded yet.  The thruster's physical parameters — position,
    /// direction, maximum thrust, specific impulse — live with the engine,
    /// not in this table.  The host assigns the next free handle.
    pub fn CreateThruster(&mut self, ph: PropellantHandle) -> (th: ThrusterHandle)
        requires
            old(self)@.wf(),
            old(self)@.has_propellant(ph),
            old(self)@.next_handle < usize::MAX,
        ensures
            th.0 == old(self)@.next_handle,
            final(self)@ == (ContextModel {
                next_handle: (old(self)@.next_handle + 1) as usize,
                thrusters: old(self)@.thrusters.push(
                    ThrusterRecord { handle: th, propellant: ph, level_milli: 0 },
                ),
                ..old(self)@
            }),
            final(self)@.wf(),
    {
        let th = ThrusterHandle(self.next_handle);
        self.next_handle = self.next_handle + 1;
        self.thrusters.push(ThrusterRecord { handle: th, propellant: ph, level_milli: 0 });
        th
    }

    /// Combine thrusters into a logical group filling one of the engine's
    /// group slots.  The host assigns the next free handle.
    pub fn CreateThrusterGroup(
        &mut self,
        thrusters: &Vec<ThrusterHandle>,
        thgroup_type: ThrusterGroupType,
    ) -> (gh: ThrustGroupHandle)
        requires
            old(self)@.wf(),
            old(self)@.next_handle < usize::MAX,
        ensures
            gh.0 == old(self)@.next_handle,
            final(self)@ == (ContextModel {
                next_handle: (old(self)@.next_handle + 1) as usize,
                groups: old(self)@.groups.push(
                    GroupModel { handle: gh, kind: thgroup_type, members: thrusters@ },
                ),
                ..old(self)@
            }),
            final(self)@.wf(),
    {
        let gh = ThrustGroupHandle(self.next_handle);
        self.next_handle = self.next_handle + 1;
        let mut members: Vec<ThrusterHandle> = Vec::new();
        let mut i: usize = 0;
        while i < thrusters.len()
            invariant
                i <= thrusters@.len(),
                members@ == thrusters@.take(i as int),
            decreases thrusters@.len() - i,
        {
            members.push(thrusters[i]);
            proof {
                assert(members@ =~= thrusters@.take(i + 1));
            }
            i += 1;
        }
        proof {
            assert(members@ =~= thrusters@);
        }
        self.groups.push(GroupRecord { handle: gh, kind: thgroup_type, members });
        proof {
            assert(self@.groups =~= old(self)@.groups.push(
                GroupModel { handle: gh, kind: thgroup_type, members: thrusters@ },
            ));
            assert(self@ =~= (ContextModel {
                next_handle: (old(self)@.next_handle + 1) as usize,
                groups: old(self)@.groups.push(
                    GroupModel { handle: gh, kind: thgroup_type, members: thrusters@ },
                ),
                ..old(self)@
            }));
        }
        gh
    }

    /// Add an exhaust render definition for a thruster; returns the index
    /// of the new definition.  The render scales live with the engine.
    pub fn AddExhaust(&mut self, th: ThrusterHandle) -> (idx: usize)
        ensures
            idx == old(self)@.exhausts.len(),
            final(self)@ == (ContextModel { exhausts: old(self)@.exhausts.push(th), ..old(self)@ }),
    {
        let idx = self.exhausts.len();
        self.exhausts.push(th);
        idx
    }

    /// Remove all mesh definitions for the vessel.
    pub fn ClearMeshes(&mut self)
        ensures
            final(self)@ == (ContextModel { meshes: Seq::empty(), ..old(self)@ }),
    {
        self.meshes = Vec::new();
        proof {
            assert(self@.meshes =~= Seq::<Seq<char>>::empty());
            assert(self@ =~= (ContextModel { meshes: Seq::empty(), ..old(self)@ }));
        }
    }

    /// Attach a mesh definition by file name.  The displacement of the
    /// mesh against the vessel origin lives with the engine.
    pub fn AddMesh(&mut self, mesh_name: String)
        ensures
            final(self)@ == (ContextModel {
                meshes: old(self)@.meshes.push(mesh_name@),
                ..old(self)@
            }),
    {
        let ghost name_view = mesh_name@;
        self.meshes.push(mesh_name);
        proof {
            assert(self@.meshes =~= old(self)@.meshes.push(name_view));
            assert(self@ =~= (ContextModel {
                meshes: old(self)@.meshes.push(name_view),
                ..old(self)@
            }));
        }
    }

    /// Set the vessel's empty mass (excluding propellants), in centigrams.
    pub fn SetEmptyMass(&mut self, empty_mass_cg: u64)
        ensures
            final(self)@ == (ContextModel { empty_mass_cg, ..old(self)@ }),
    {
        self.empty_mass_cg = empty_mass_cg;
    }

    /// The propellant currently in the tank under handle `ph`, in
    /// centigrams.
    pub fn GetPropellantMass(&self, ph: PropellantHandle) -> (r: u64)
        requires
            self@.wf(),
            self@.has_propellant(ph),
        ensures
            r == self@.propellant_mass(ph),
    {
        let n = self.propellants.len();
        let mut i: usize = 0;
        while i < n
            invariant
                self@.wf(),
                self@.has_propellant(ph),
                n == self@.propellants.len(),
                i <= n,
                forall|j: int| 0 <= j < i ==> (#[trigger] self@.propellants[j]).handle != ph,
            decreases n - i,
        {
            if self.propellants[i].handle == ph {
                proof {
                    assert(i as int == self@.propellant_index(ph));
                }
                return self.propellants[i].current_mass_cg;
            }
            i += 1;
        }
        proof {
            let j = choose|j: int|
                0 <= j < self@.propellants.len() && (#[trigger] self@.propellants[j]).handle == ph;
            assert(self@.propellants[j].handle != ph);
        }
        vstd::pervasive::unreached()
    }

    /// Set the propellant in the tank under handle `ph`, in centigrams.
    /// This is the host side of the physics writing the tank state as the
    /// simulation consumes propellant.
    pub fn SetPropellantMass(&mut self, ph: PropellantHandle, mass_cg: u64)
        requires
            old(self)@.wf(),
            old(self)@.has_propellant(ph),
            mass_cg <= old(self)@.propellant_max(ph),
        ensures
            final(self)@ == (ContextModel {
                propellants: old(self)@.propellants.update(
                    old(self)@.propellant_index(ph),
                    PropellantRecord {
                        current_mass_cg: mass_cg,
                        ..old(self)@.propellants[old(self)@.propellant_index(ph)]
                    },
                ),
                ..old(self)@
            }),
            final(self)@.wf(),
    {
        let n = self.propellants.len();
        let mut i: usize = 0;
        while i < n
            invariant
                old(self)@.wf(),
                old(self)@.has_propellant(ph),
                mass_cg <= old(self)@.propellant_max(ph),
                self == old(self),
                n == self@.propellants.len(),
                i <= n,
                forall|j: int| 0 <= j < i ==> (#[trigger] self@.propellants[j]).handle != ph,
            decreases n - i,
        {
            if self.propellants[i].handle == ph {
                proof {
                    assert(i as int == self@.propellant_index(ph));
                }
                let updated = PropellantRecord { current_mass_cg: mass_cg, ..self.propellants[i] };
                self.propellants.set(i, updated);
                proof {
                    assert(self@ =~= (ContextModel {
                        propellants: old(self)@.propellants.update(
                            old(self)@.propellant_index(ph),
                            PropellantRecord {
                                current_mass_cg: mass_cg,
                                ..old(self)@.propellants[old(self)@.propellant_index(ph)]
                            },
                        ),
                        ..old(self)@
                    }));
                }
                return ;
            }
            i += 1;
        }
        proof {
            let j = choose|j: int|
                0 <= j < self@.propellants.len() && (#[trigger] self@.propellants[j]).handle == ph;
            assert(self@.propellants[j].handle != ph);
        }
        vstd::pervasive::unreached()
    }

    /// Command a thrust level, in thousandths of full thrust, for the
    /// thruster under handle `th`.
    pub fn SetThrusterLevel(&mut self, th: ThrusterHandle, level_milli: u32)
        requires
            old(self)@.wf(),
            old(self)@.has_thruster(th),
            level_milli <= 1000,
        ensures
            final(self)@ == (ContextModel {
                thrusters: old(self)@.thrusters.update(
                    old(self)@.thruster_index(th),
                    ThrusterRecord {
                        level_milli,
                        ..old(self)@.thrusters[old(self)@.thruster_index(th)]
                    },
                ),
                ..old(self)@
            }),
            final(self)@.wf(),
    {
        let n = self.thrusters.len();
        let mut i: usize = 0;
        while i < n
            invariant
                old(self)@.wf(),
                old(self)@.has_thruster(th),
                level_milli <= 1000,
                self == old(self),
                n == self@.thrusters.len(),
                i <= n,
                forall|j: int| 0 <= j < i ==> (#[trigger] self@.thrusters[j]).handle != th,
            decreases n - i,
        {
            if self.thrusters[i].handle == th {
                proof {
                    assert(i as int == self@.thruster_index(th));
                }
                let updated = ThrusterRecord { level_milli, ..self.thrusters[i] };
                self.thrusters.set(i, updated);
                proof {
                    assert(self@ =~= (ContextModel {
                        thrusters: old(self)@.thrusters.update(
                            old(self)@.thruster_index(th),
                            ThrusterRecord {
                                level_milli,
                                ..old(self)@.thrusters[old(self)@.thruster_index(th)]
                            },
                        ),
                        ..old(self)@
                    }));
                }
                return ;
            }
            i += 1;
        }
        proof {
            let j = choose|j: int|
                0 <= j < self@.thrusters.len() && (#[trigger] self@.thrusters[j]).handle == th;
            assert(self@.thrusters[j].handle != th);
        }
        vstd::pervasive::unreached()
    }

    /// Ask the engine to spawn a new host-managed object of the given
    /// configuration class.  The host assigns the next free object handle.
    pub fn CreateVessel(&mut self, name: String, classname: String) -> (h: ObjHandle)
        requires
            old(self)@.wf(),
            old(self)@.next_handle < usize::MAX,
        ensures
            h.0 == old(self)@.next_handle,
            final(self)@ == (ContextModel {
                next_handle: (old(self)@.next_handle + 1) as usize,
                spawned: old(self)@.spawned.push(
                    SpawnModel { name: name@, classname: classname@, handle: h },
                ),
                ..old(self)@
            }),
            final(self)@.wf(),
    {
        let h = ObjHandle(self.next_handle);
        self.next_handle = self.next_handle + 1;
        let ghost name_view = name@;
        let ghost classname_view = classname@;
        self.spawned.push(SpawnRecord { name, classname, handle: h });
        proof {
            assert(self@.spawned =~= old(self)@.spawned.push(
                SpawnModel { name: name_view, classname: classname_view, handle: h },
            ));
            assert(self@ =~= (ContextModel {
                next_handle: (old(self)@.next_handle + 1) as usize,
                spawned: old(self)@.spawned.push(
                    SpawnModel { name: name_view, classname: classname_view, handle: h },
                ),
                ..old(self)@
            }));
        }
        h
    }

    /// How many fuel tanks the vessel has registered.
    pub fn propellant_count(&self) -> (r: usize)
        ensures
            r == self@.propellants.len(),
    {
        self.propellants.len()
    }

    /// How many thrusters the vessel has registered.
    pub fn thruster_count(&self) -> (r: usize)
        ensures
            r == self@.thrusters.len(),
    {
        self.thrusters.len()
    }

    /// The tank record at table index `i`.
    pub fn propellant_at(&self, i: usize) -> (r: &PropellantRecord)
        requires
            i < self@.propellants.len(),
        ensures
            *r == self@.propellants[i as int],
    {
        &self.propellants[i]
    }

    /// The thruster record at table index `i`.
    pub fn thruster_at(&self, i: usize) -> (r: &ThrusterRecord)
        requires
            i < self@.thrusters.len(),
        ensures
            *r == self@.thrusters[i as int],
    {
        &self.thrusters[i]
    }

    /// How many thruster groups the vessel has registered.
    pub fn group_count(&self) -> (r: usize)
        ensures
            r == self@.groups.len(),
    {
        self.groups.len()
    }

    /// The thruster group at table index `i`.
    pub fn group_at(&self, i: usize) -> (r: &GroupRecord)
        requires
            i < self@.groups.len(),
        ensures
            r@ == self@.groups[i as int],
    {
        &self.groups[i]
    }

    /// How many exhaust render definitions the vessel has added.
    pub fn exhaust_count(&self) -> (r: usize)
        ensures
            r == self@.exhausts.len(),
    {
        self.exhausts.len()
    }

    /// The names of the meshes currently attached, in attachment order.
    pub fn meshes(&self) -> (r: &Vec<String>)
        ensures
            r@.map_values(|s: String| s@) == self@.meshes,
    {
        &self.meshes
    }

    /// The vessel's empty mass (excluding propellants), in centigrams.
    pub fn empty_mass(&self) -> (r: u64)
        ensures
            r == self@.empty_mass_cg,
    {
        self.empty_mass_cg
    }

    /// How many objects the vessel has asked the engine to spawn.
    pub fn spawned_count(&self) -> (r: usize)
        ensures
            r == self@.spawned.len(),
    {
        self.spawned.len()
    }

    /// The spawn request at table index `i`.
    pub fn spawned_at(&self, i: usize) -> (r: &SpawnRecord)
        requires
            i < self@.spawned.len(),
        ensures
            r@ == self@.spawned[i as int],
    {
        &self.spawned[i]
    }
}

} // verus!
