//! Verified core of a vessel-module binding for a native spaceflight
//! simulator.
//!
//! A native host engine loads a vessel module as a plugin and drives it
//! through a fixed set of callbacks: class-capability registration once per
//! vessel, a pre-step and a post-step call per simulation tick, buffered
//! keyboard events, and scenario load/save.  This crate holds the safe,
//! verified side of that arrangement:
//!
//! * opaque resource-handle newtypes that cross the boundary as plain words
//!   ([`ThrusterHandle`], [`PropellantHandle`], [`ThrustGroupHandle`],
//!   [`ObjHandle`], [`Dword`], [`FileHandle`]);
//! * the scan-code codec and the key-state view over the host's keyboard
//!   buffer ([`Key`], [`KeyStates`]);
//! * the logger configuration that decides which records reach the host log
//!   ([`OrbiterLogger`]);
//! * a resource-table model of the host's vessel context ([`VesselContext`])
//!   against which vessel logic is specified and verified;
//! * the [`OrbiterVessel`] callback trait, whose contracts pin every
//!   transition to a function of the previous state and the call's inputs;
//! * the bridge that owns a boxed vessel implementation and dispatches each
//!   host callback to it ([`VesselBridge`] and the `dyn_vessel_*` shims);
//! * the example spacecraft [`RustSpacecraft`], a staged lander whose
//!   jettison state machine and mass bookkeeping are fully specified.
//!
//! The unverifiable rim — the C++ bridge itself, floating-point geometry,
//! and the host's file and log I/O — lives outside this crate and hands the
//! library plain values.

mod bridge;
mod context;
mod handles;
mod input;
mod io;
mod logging;
mod surveyor;
mod vessel;

pub use bridge::VesselBridge;
pub use bridge::dyn_vessel_consume_buffered_key;
pub use bridge::dyn_vessel_load_state_ex;
pub use bridge::dyn_vessel_post_step;
pub use bridge::dyn_vessel_pre_step;
pub use bridge::dyn_vessel_save_state;
pub use bridge::dyn_vessel_set_class_caps;
pub use bridge::StepInput;
pub use bridge::inputs_for;
pub use bridge::lemma_instances_isolated;
pub use bridge::lemma_pre_steps_deterministic;
pub use bridge::load_consumed_flags;
pub use bridge::load_run;
pub use bridge::run_pair;
pub use bridge::run_pre_steps;
pub use context::ContextModel;
pub use context::GroupModel;
pub use context::GroupRecord;
pub use context::PropellantRecord;
pub use context::SpawnModel;
pub use context::SpawnRecord;
pub use context::ThrusterGroupType;
pub use context::ThrusterRecord;
pub use context::VesselContext;
pub use handles::Dword;
pub use handles::ObjHandle;
pub use handles::PropellantHandle;
pub use handles::ThrustGroupHandle;
pub use handles::ThrusterHandle;
pub use input::Key;
pub use input::KeyStates;
pub use input::key_code;
pub use input::key_is_down;
pub use input::key_of;
pub use input::lemma_named_key_roundtrip;
pub use input::lemma_scan_code_roundtrip;
pub use io::FileHandle;
pub use io::nul_terminated_prefix;
pub use io::read_bool_value;
pub use io::read_i32_value;
pub use io::read_string_value;
pub use logging::Level;
pub use logging::LevelFilter;
pub use logging::OrbiterLogger;
pub use logging::filter_of;
pub use logging::filter_rank;
pub use logging::level_rank;
pub use surveyor::RustSpacecraft;
pub use surveyor::SpacecraftModel;
pub use surveyor::SurveyorState;
pub use surveyor::lemma_key_up_not_handled;
pub use surveyor::mesh_names_for;
pub use surveyor::spawn_budget;
pub use surveyor::surveyor_class_caps;
pub use surveyor::surveyor_empty_mass;
pub use surveyor::surveyor_jettison;
pub use surveyor::surveyor_key_fires_retro;
pub use surveyor::surveyor_key_next;
pub use surveyor::surveyor_key_result;
pub use surveyor::surveyor_pre_step;
pub use surveyor::AMR_DETACH_MASS_CG;
pub use surveyor::AMR_MASS_CG;
pub use surveyor::LANDER_EMPTY_MASS_CG;
pub use surveyor::RCS_PROP_MASS_CG;
pub use surveyor::RETRO_EMPTY_MASS_CG;
pub use surveyor::RETRO_FIRE_LEVEL_MILLI;
pub use surveyor::RETRO_PROP_MASS_CG;
pub use surveyor::RETRO_SPENT_MASS_CG;
pub use surveyor::VERNIER_PROP_MASS_CG;
pub use vessel::OrbiterVessel;
