//! Tests of the direction tables: movement classification, the crosswalk
//! reversal, and the left-turn conflict table.

use intersim::dir::crosses_across_axis;
use intersim::dir::far_side;
use intersim::dir::left_turn_case;
use intersim::dir::lt_conflicts;
use intersim::dir::ped_case;
use intersim::dir::right_turn_case;
use intersim::dir::Dir;
use intersim::dir::PedFlowDir;
use intersim::dir::VehFlowDir;

#[test]
fn reverse_pairs() {
    let pairs = [
        (PedFlowDir::NxNy2PxNy, PedFlowDir::PxNy2NxNy),
        (PedFlowDir::PxNy2PxPy, PedFlowDir::PxPy2PxNy),
        (PedFlowDir::PxPy2NxPy, PedFlowDir::NxPy2PxPy),
        (PedFlowDir::NxPy2NxNy, PedFlowDir::NxNy2NxPy),
    ];
    for (a, b) in pairs {
        assert_eq!(a.reverse(), b);
        assert_eq!(b.reverse(), a);
        assert_eq!(a.reverse().reverse(), a);
    }
}

#[test]
fn left_turn_classification() {
    assert_eq!(
        left_turn_case(Dir::NxPy, Dir::PyNx, 3, 3),
        Some(VehFlowDir::Nx2Py(3, 3))
    );
    assert_eq!(
        left_turn_case(Dir::PyPx, Dir::PxPy, 0, 3),
        Some(VehFlowDir::Py2Px(0, 3))
    );
    assert_eq!(
        left_turn_case(Dir::PxNy, Dir::NyPx, 0, 0),
        Some(VehFlowDir::Px2Ny(0, 0))
    );
    assert_eq!(
        left_turn_case(Dir::NyNx, Dir::NxNy, 3, 0),
        Some(VehFlowDir::Ny2Nx(3, 0))
    );
    assert_eq!(left_turn_case(Dir::NxPy, Dir::NyPx, 0, 0), None);
    assert_eq!(left_turn_case(Dir::NxPy, Dir::NxNy, 0, 0), None);
}

#[test]
fn right_turn_classification() {
    assert_eq!(
        right_turn_case(Dir::NxPy, Dir::NyPx, 2, 1),
        Some(VehFlowDir::Nx2Ny(2, 1))
    );
    assert_eq!(
        right_turn_case(Dir::NyNx, Dir::PxPy, 2, 2),
        Some(VehFlowDir::Ny2Px(2, 2))
    );
    assert_eq!(
        right_turn_case(Dir::PxNy, Dir::PyNx, 1, 2),
        Some(VehFlowDir::Px2Py(1, 2))
    );
    assert_eq!(
        right_turn_case(Dir::PyPx, Dir::NxNy, 1, 1),
        Some(VehFlowDir::Py2Nx(1, 1))
    );
    assert_eq!(right_turn_case(Dir::NxPy, Dir::PyNx, 0, 0), None);
}

#[test]
fn crossing_classification() {
    assert_eq!(ped_case(Dir::NyNx, Dir::NyPx), Some(PedFlowDir::NxNy2PxNy));
    assert_eq!(ped_case(Dir::PxNy, Dir::PxPy), Some(PedFlowDir::PxNy2PxPy));
    assert_eq!(ped_case(Dir::NxPy, Dir::NxNy), Some(PedFlowDir::NxPy2NxNy));
    assert_eq!(ped_case(Dir::NxNy, Dir::NxPy), Some(PedFlowDir::NxNy2NxPy));
    assert_eq!(ped_case(Dir::NxPy, Dir::PyNx), None);
}

#[test]
fn crossing_attributes() {
    assert!(crosses_across_axis(PedFlowDir::NxNy2PxNy));
    assert!(!crosses_across_axis(PedFlowDir::NxPy2NxNy));
    assert!(far_side(PedFlowDir::NxNy2NxPy));
    assert!(!far_side(PedFlowDir::NxPy2NxNy));
}

#[test]
fn conflict_table() {
    let lt = VehFlowDir::Nx2Py(0, 0);
    assert!(lt_conflicts(lt, PedFlowDir::NxPy2PxPy));
    assert!(lt_conflicts(lt, PedFlowDir::PxPy2NxPy));
    assert!(!lt_conflicts(lt, PedFlowDir::NxNy2PxNy));
    let rt = VehFlowDir::Nx2Ny(0, 0);
    assert!(!lt_conflicts(rt, PedFlowDir::NxPy2PxPy));
    assert!(lt_conflicts(VehFlowDir::Ny2Nx(1, 2), PedFlowDir::NxPy2NxNy));
}
