use fescent::config::NesterovProblemKind;
use fescent::constraints::{
    bowl_constraints, nesterov_constraints, valley_chain_constraints, valley_constraints,
    ConstraintStructure, LinearConstraint, StructureError,
};

fn row(coeffs: Vec<i64>, offset: i64) -> LinearConstraint {
    LinearConstraint { coeffs, offset }
}

#[test]
fn bowl_has_one_soft_row() {
    let s = bowl_constraints();
    assert_eq!(s.dim, 2);
    assert_eq!(s.num_soft(), 1);
    assert_eq!(s.num_hard(), 0);
    assert_eq!(s.soft[0].coeffs, vec![1, 1]);
    assert_eq!(s.soft[0].offset, 100);
    assert_eq!(s.soft_coeff_vec(), vec![1, 1]);
    assert_eq!(s.hard_coeff_vec(), vec![0, 0]);
}

#[test]
fn valley_has_one_row_of_each_kind() {
    let s = valley_constraints();
    assert_eq!(s.num_soft(), 1);
    assert_eq!(s.num_hard(), 1);
    assert_eq!(s.soft[0].offset, -5);
    assert_eq!(s.hard[0].offset, -2);
    assert_eq!(s.soft_coeff_vec(), vec![1, 1]);
    assert_eq!(s.hard_coeff_vec(), vec![1, -5]);
}

#[test]
fn valley_chain_has_one_hard_row() {
    let s = valley_chain_constraints();
    assert_eq!(s.dim, 1000);
    assert_eq!(s.num_soft(), 0);
    assert_eq!(s.num_hard(), 1);
    assert_eq!(s.hard[0].offset, -1001);
    assert_eq!(s.soft_coeff_vec(), vec![0; 1000]);
    assert_eq!(s.hard_coeff_vec(), vec![1; 1000]);
}

#[test]
fn nesterov_constraints_follow_kind() {
    let b = nesterov_constraints(NesterovProblemKind::Bowl);
    assert_eq!(b.num_hard(), 0);
    assert_eq!(b.soft[0].offset, 100);
    let v = nesterov_constraints(NesterovProblemKind::Valley);
    assert_eq!(v.num_hard(), 1);
    assert_eq!(v.hard_coeff_vec(), vec![1, -5]);
}

#[test]
fn structure_accepts_single_rows() {
    let s = ConstraintStructure::new(3, vec![row(vec![1, 2, 3], 4)], vec![]).unwrap();
    assert_eq!(s.soft_coeff_vec(), vec![1, 2, 3]);
    assert_eq!(s.hard_coeff_vec(), vec![0, 0, 0]);
    let e = ConstraintStructure::new(0, vec![], vec![]).unwrap();
    assert_eq!(e.soft_coeff_vec(), Vec::<i64>::new());
}

#[test]
fn structure_refuses_two_soft_rows() {
    let r = ConstraintStructure::new(
        2,
        vec![row(vec![1, 1], 0), row(vec![1, 0], 0)],
        vec![row(vec![1], 0), row(vec![1], 0)],
    );
    assert_eq!(r.err(), Some(StructureError::TooManySoftRows { count: 2 }));
}

#[test]
fn structure_refuses_two_hard_rows() {
    let r = ConstraintStructure::new(2, vec![], vec![row(vec![1, 1], 0), row(vec![1, 0], 0)]);
    assert_eq!(r.err(), Some(StructureError::TooManyHardRows { count: 2 }));
}

#[test]
fn structure_refuses_short_rows() {
    let r = ConstraintStructure::new(2, vec![row(vec![1], 0)], vec![]);
    assert_eq!(r.err(), Some(StructureError::RowLength { expected: 2, found: 1 }));
    let r = ConstraintStructure::new(2, vec![], vec![row(vec![1, 2, 3], 0)]);
    assert_eq!(r.err(), Some(StructureError::RowLength { expected: 2, found: 3 }));
}

#[test]
fn soft_row_length_is_reported_before_hard() {
    let r = ConstraintStructure::new(3, vec![row(vec![1], 0)], vec![row(vec![1, 1], 0)]);
    assert_eq!(r.err(), Some(StructureError::RowLength { expected: 3, found: 1 }));
}
