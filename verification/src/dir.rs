//! Directions, movement classification, and the fixed direction-pair tables.
//!
//! A movement is identified by a `(source, destination)` pair of [`Dir`]
//! values.  The samplers only accept specific pairs; classification maps a
//! pair to the small tagged variant ([`VehFlowDir`] / [`PedFlowDir`])
//! describing its geometric case, and an unmatched pair is a configuration
//! error surfaced at load time.

use vstd::prelude::*;

verus! {

/// One of eight compass-like approach corners: two perpendicular road axes
/// ("along" = X, "across" = Y), each side signed.  `NxPy` reads as "on the
/// negative-X arm, positive-Y side", and so on.
#[derive(Clone, Copy, PartialEq, Eq, Structural, Debug, Hash)]
pub enum Dir {
    NxPy,
    NxNy,
    PxPy,
    PxNy,
    NyNx,
    NyPx,
    PyNx,
    PyPx,
}

/// Geometric case of a vehicle movement, carrying the source and destination
/// lane indices.  The first four variants are straight crossings; the middle
/// four are left turns; the last four are right turns.
#[derive(Clone, Copy, PartialEq, Eq, Structural, Debug)]
pub enum VehFlowDir {
    Nx2Px(usize, usize),
    Px2Nx(usize, usize),
    Ny2Py(usize, usize),
    Py2Ny(usize, usize),
    Nx2Py(usize, usize),
    Py2Px(usize, usize),
    Px2Ny(usize, usize),
    Ny2Nx(usize, usize),
    Nx2Ny(usize, usize),
    Ny2Px(usize, usize),
    Px2Py(usize, usize),
    Py2Nx(usize, usize),
}

/// Geometric case of a pedestrian crossing movement, named by the corner it
/// leaves and the corner it reaches.
#[derive(Clone, Copy, PartialEq, Eq, Structural, Debug)]
pub enum PedFlowDir {
    NxNy2PxNy,
    PxNy2NxNy,
    PxNy2PxPy,
    PxPy2PxNy,
    PxPy2NxPy,
    NxPy2PxPy,
    NxPy2NxNy,
    NxNy2NxPy,
}

/// The same crosswalk leg walked in the opposite direction.
pub open spec fn ped_reverse_spec(d: PedFlowDir) -> PedFlowDir {
    match d {
        PedFlowDir::NxNy2PxNy => PedFlowDir::PxNy2NxNy,
        PedFlowDir::PxNy2NxNy => PedFlowDir::NxNy2PxNy,
        PedFlowDir::PxNy2PxPy => PedFlowDir::PxPy2PxNy,
        PedFlowDir::PxPy2PxNy => PedFlowDir::PxNy2PxPy,
        PedFlowDir::PxPy2NxPy => PedFlowDir::NxPy2PxPy,
        PedFlowDir::NxPy2PxPy => PedFlowDir::PxPy2NxPy,
        PedFlowDir::NxPy2NxNy => PedFlowDir::NxNy2NxPy,
        PedFlowDir::NxNy2NxPy => PedFlowDir::NxPy2NxNy,
    }
}

impl PedFlowDir {
    /// The same crosswalk leg walked in the opposite direction.
    pub fn reverse(&self) -> (r: PedFlowDir)
        ensures
            r == ped_reverse_spec(*self),
    {
        match self {
            PedFlowDir::NxNy2PxNy => PedFlowDir::PxNy2NxNy,
            PedFlowDir::PxNy2NxNy => PedFlowDir::NxNy2PxNy,
            PedFlowDir::PxNy2PxPy => PedFlowDir::PxPy2PxNy,
            PedFlowDir::PxPy2PxNy => PedFlowDir::PxNy2PxPy,
            PedFlowDir::PxPy2NxPy => PedFlowDir::NxPy2PxPy,
            PedFlowDir::NxPy2PxPy => PedFlowDir::PxPy2NxPy,
            PedFlowDir::NxPy2NxNy => PedFlowDir::NxNy2NxPy,
            PedFlowDir::NxNy2NxPy => PedFlowDir::NxPy2NxNy,
        }
    }
}

/// The left-turn geometric case for a `(source, destination)` pair, if the
/// pair is one of the four recognized left-turn movements.
pub open spec fn left_turn_case_spec(src: Dir, dst: Dir, src_lane: usize, dst_lane: usize) -> Option<
    VehFlowDir,
> {
    match (src, dst) {
        (Dir::NxPy, Dir::PyNx) => Some(VehFlowDir::Nx2Py(src_lane, dst_lane)),
        (Dir::PyPx, Dir::PxPy) => Some(VehFlowDir::Py2Px(src_lane, dst_lane)),
        (Dir::PxNy, Dir::NyPx) => Some(VehFlowDir::Px2Ny(src_lane, dst_lane)),
        (Dir::NyNx, Dir::NxNy) => Some(VehFlowDir::Ny2Nx(src_lane, dst_lane)),
        _ => None,
    }
}

/// The right-turn geometric case for a `(source, destination)` pair, if the
/// pair is one of the four recognized right-turn movements.
pub open spec fn right_turn_case_spec(src: Dir, dst: Dir, src_lane: usize, dst_lane: usize) -> Option<
    VehFlowDir,
> {
    match (src, dst) {
        (Dir::NxPy, Dir::NyPx) => Some(VehFlowDir::Nx2Ny(src_lane, dst_lane)),
        (Dir::NyNx, Dir::PxPy) => Some(VehFlowDir::Ny2Px(src_lane, dst_lane)),
        (Dir::PxNy, Dir::PyNx) => Some(VehFlowDir::Px2Py(src_lane, dst_lane)),
        (Dir::PyPx, Dir::NxNy) => Some(VehFlowDir::Py2Nx(src_lane, dst_lane)),
        _ => None,
    }
}

/// The crossing geometric case for a `(source, destination)` pair, if the
/// pair is one of the eight recognized crosswalk legs.
pub open spec fn ped_case_spec(src: Dir, dst: Dir) -> Option<PedFlowDir> {
    match (src, dst) {
        (Dir::NyNx, Dir::NyPx) => Some(PedFlowDir::NxNy2PxNy),
        (Dir::NyPx, Dir::NyNx) => Some(PedFlowDir::PxNy2NxNy),
        (Dir::PxNy, Dir::PxPy) => Some(PedFlowDir::PxNy2PxPy),
        (Dir::PxPy, Dir::PxNy) => Some(PedFlowDir::PxPy2PxNy),
        (Dir::PyPx, Dir::PyNx) => Some(PedFlowDir::PxPy2NxPy),
        (Dir::PyNx, Dir::PyPx) => Some(PedFlowDir::NxPy2PxPy),
        (Dir::NxPy, Dir::NxNy) => Some(PedFlowDir::NxPy2NxNy),
        (Dir::NxNy, Dir::NxPy) => Some(PedFlowDir::NxNy2NxPy),
        _ => None,
    }
}

/// Executable mirror of [`left_turn_case_spec`].
pub fn left_turn_case(src: Dir, dst: Dir, src_lane: usize, dst_lane: usize) -> (r: Option<
    VehFlowDir,
>)
    ensures
        r == left_turn_case_spec(src, dst, src_lane, dst_lane),
{
    match (src, dst) {
        (Dir::NxPy, Dir::PyNx) => Some(VehFlowDir::Nx2Py(src_lane, dst_lane)),
        (Dir::PyPx, Dir::PxPy) => Some(VehFlowDir::Py2Px(src_lane, dst_lane)),
        (Dir::PxNy, Dir::NyPx) => Some(VehFlowDir::Px2Ny(src_lane, dst_lane)),
        (Dir::NyNx, Dir::NxNy) => Some(VehFlowDir::Ny2Nx(src_lane, dst_lane)),
        _ => None,
    }
}

/// Executable mirror of [`right_turn_case_spec`].
pub fn right_turn_case(src: Dir, dst: Dir, src_lane: usize, dst_lane: usize) -> (r: Option<
    VehFlowDir,
>)
    ensures
        r == right_turn_case_spec(src, dst, src_lane, dst_lane),
{
    match (src, dst) {
        (Dir::NxPy, Dir::NyPx) => Some(VehFlowDir::Nx2Ny(src_lane, dst_lane)),
        (Dir::NyNx, Dir::PxPy) => Some(VehFlowDir::Ny2Px(src_lane, dst_lane)),
        (Dir::PxNy, Dir::PyNx) => Some(VehFlowDir::Px2Py(src_lane, dst_lane)),
        (Dir::PyPx, Dir::NxNy) => Some(VehFlowDir::Py2Nx(src_lane, dst_lane)),
        _ => None,
    }
}

/// Executable mirror of [`ped_case_spec`].
pub fn ped_case(src: Dir, dst: Dir) -> (r: Option<PedFlowDir>)
    ensures
        r == ped_case_spec(src, dst),
{
    match (src, dst) {
        (Dir::NyNx, Dir::NyPx) => Some(PedFlowDir::NxNy2PxNy),
        (Dir::NyPx, Dir::NyNx) => Some(PedFlowDir::PxNy2NxNy),
        (Dir::PxNy, Dir::PxPy) => Some(PedFlowDir::PxNy2PxPy),
        (Dir::PxPy, Dir::PxNy) => Some(PedFlowDir::PxPy2PxNy),
        (Dir::PyPx, Dir::PyNx) => Some(PedFlowDir::PxPy2NxPy),
        (Dir::PyNx, Dir::PyPx) => Some(PedFlowDir::NxPy2PxPy),
        (Dir::NxPy, Dir::NxNy) => Some(PedFlowDir::NxPy2NxNy),
        (Dir::NxNy, Dir::NxPy) => Some(PedFlowDir::NxNy2NxPy),
        _ => None,
    }
}

/// Whether the crossing uses the far edge of its crosswalk.
pub open spec fn far_side_spec(d: PedFlowDir) -> bool {
    match d {
        PedFlowDir::PxNy2NxNy
        | PedFlowDir::PxPy2PxNy
        | PedFlowDir::NxPy2PxPy
        | PedFlowDir::NxNy2NxPy => true,
        PedFlowDir::NxNy2PxNy
        | PedFlowDir::PxNy2PxPy
        | PedFlowDir::PxPy2NxPy
        | PedFlowDir::NxPy2NxNy => false,
    }
}

/// Whether the crossing spans the "across" (rotated) axis, so its geometry
/// scalars are read from the across-axis configuration.
pub open spec fn crosses_across_axis_spec(d: PedFlowDir) -> bool {
    match d {
        PedFlowDir::NxNy2PxNy
        | PedFlowDir::PxNy2NxNy
        | PedFlowDir::PxPy2NxPy
        | PedFlowDir::NxPy2PxPy => true,
        PedFlowDir::PxNy2PxPy
        | PedFlowDir::PxPy2PxNy
        | PedFlowDir::NxPy2NxNy
        | PedFlowDir::NxNy2NxPy => false,
    }
}

/// Executable mirror of [`far_side_spec`].
pub fn far_side(d: PedFlowDir) -> (r: bool)
    ensures
        r == far_side_spec(d),
{
    match d {
        PedFlowDir::PxNy2NxNy
        | PedFlowDir::PxPy2PxNy
        | PedFlowDir::NxPy2PxPy
        | PedFlowDir::NxNy2NxPy => true,
        PedFlowDir::NxNy2PxNy
        | PedFlowDir::PxNy2PxPy
        | PedFlowDir::PxPy2NxPy
        | PedFlowDir::NxPy2NxNy => false,
    }
}

/// Executable mirror of [`crosses_across_axis_spec`].
pub fn crosses_across_axis(d: PedFlowDir) -> (r: bool)
    ensures
        r == crosses_across_axis_spec(d),
{
    match d {
        PedFlowDir::NxNy2PxNy
        | PedFlowDir::PxNy2NxNy
        | PedFlowDir::PxPy2NxPy
        | PedFlowDir::NxPy2PxPy => true,
        PedFlowDir::PxNy2PxPy
        | PedFlowDir::PxPy2PxNy
        | PedFlowDir::NxPy2NxNy
        | PedFlowDir::NxNy2NxPy => false,
    }
}

/// The fixed conflict table: whether a left-turn vehicle movement sweeps the
/// given crosswalk leg.  Movements not in the table contribute no conflict.
pub open spec fn lt_conflicts_spec(veh: VehFlowDir, ped: PedFlowDir) -> bool {
    match (veh, ped) {
        (VehFlowDir::Nx2Py(_, _), PedFlowDir::NxPy2PxPy) => true,
        (VehFlowDir::Nx2Py(_, _), PedFlowDir::PxPy2NxPy) => true,
        (VehFlowDir::Py2Px(_, _), PedFlowDir::PxPy2PxNy) => true,
        (VehFlowDir::Py2Px(_, _), PedFlowDir::PxNy2PxPy) => true,
        (VehFlowDir::Px2Ny(_, _), PedFlowDir::PxNy2NxNy) => true,
        (VehFlowDir::Px2Ny(_, _), PedFlowDir::NxNy2PxNy) => true,
        (VehFlowDir::Ny2Nx(_, _), PedFlowDir::NxNy2NxPy) => true,
        (VehFlowDir::Ny2Nx(_, _), PedFlowDir::NxPy2NxNy) => true,
        _ => false,
    }
}

/// Executable mirror of [`lt_conflicts_spec`].
pub fn lt_conflicts(veh: VehFlowDir, ped: PedFlowDir) -> (r: bool)
    ensures
        r == lt_conflicts_spec(veh, ped),
{
    match (veh, ped) {
        (VehFlowDir::Nx2Py(_, _), PedFlowDir::NxPy2PxPy) => true,
        (VehFlowDir::Nx2Py(_, _), PedFlowDir::PxPy2NxPy) => true,
        (VehFlowDir::Py2Px(_, _), PedFlowDir::PxPy2PxNy) => true,
        (VehFlowDir::Py2Px(_, _), PedFlowDir::PxNy2PxPy) => true,
        (VehFlowDir::Px2Ny(_, _), PedFlowDir::PxNy2NxNy) => true,
        (VehFlowDir::Px2Ny(_, _), PedFlowDir::NxNy2PxNy) => true,
        (VehFlowDir::Ny2Nx(_, _), PedFlowDir::NxNy2NxPy) => true,
        (VehFlowDir::Ny2Nx(_, _), PedFlowDir::NxPy2NxNy) => true,
        _ => false,
    }
}

} // verus!
