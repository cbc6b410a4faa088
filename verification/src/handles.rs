//! Opaque resource-handle newtypes.
//!
//! The host engine identifies the simulation objects it manages — thrusters,
//! propellant resources, thruster groups, arbitrary scene objects — by
//! pointer-sized values.  A vessel module stores these identifiers and hands
//! them back on later calls; it never interprets them.  Each newtype below
//! wraps one such word with no further meaning, so the wrapped value is left
//! public.  The default value of each handle stands for "unassigned".

use vstd::prelude::*;

verus! {

/// Identifier of a thruster definition owned by the host engine.
#[derive(Debug, Clone, Copy, PartialEq, Eq, Hash, Structural)]
pub struct ThrusterHandle(pub usize);

/// Identifier of a propellant resource ("fuel tank") owned by the host
/// engine.
#[derive(Debug, Clone, Copy, PartialEq, Eq, Hash, Structural)]
pub struct PropellantHandle(pub usize);

/// Identifier of a logical thruster group owned by the host engine.
#[derive(Debug, Clone, Copy, PartialEq, Eq, Hash, Structural)]
pub struct ThrustGroupHandle(pub usize);

/// Identifier of an arbitrary host-managed scene object (a vessel, a planet,
/// a surface base).
#[derive(Debug, Clone, Copy, PartialEq, Eq, Hash, Structural)]
pub struct ObjHandle(pub usize);

/// A 32-bit word as the host's native ABI passes it.
#[derive(Debug, Clone, Copy, PartialEq, Eq, Hash, Structural)]
pub struct Dword(pub u32);

impl Default for ThrusterHandle {
    /// The unassigned thruster handle.
    fn default() -> (r: Self)
        ensures
            r.0 == 0,
    {
        ThrusterHandle(0)
    }
}

impl Default for PropellantHandle {
    /// The unassigned propellant handle.
    fn default() -> (r: Self)
        ensures
            r.0 == 0,
    {
        PropellantHandle(0)
    }
}

impl Default for ThrustGroupHandle {
    /// The unassigned thruster-group handle.
    fn default() -> (r: Self)
        ensures
            r.0 == 0,
    {
        ThrustGroupHandle(0)
    }
}

impl Default for ObjHandle {
    /// The unassigned object handle.
    fn default() -> (r: Self)
        ensures
            r.0 == 0,
    {
        ObjHandle(0)
    }
}

impl Default for Dword {
    /// The zero word.
    fn default() -> (r: Self)
        ensures
            r.0 == 0,
    {
        Dword(0)
    }
}

} // verus!
