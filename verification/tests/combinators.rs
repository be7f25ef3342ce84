use terrain_filter::field::{Abs, Add, Average, Constant, CoordinateSum, Multiply, ScalarField};

#[test]
fn constant_ignores_the_point() {
    let c = Constant::new(9);
    assert_eq!(c.get(&vec![]), 9);
    assert_eq!(c.get(&vec![1]), 9);
    assert_eq!(c.get(&vec![-5, 7, 100]), 9);
}

#[test]
fn coordinate_sum_sums_every_axis() {
    let g = CoordinateSum;
    assert_eq!(g.get(&vec![]), 0);
    assert_eq!(g.get(&vec![42]), 42);
    assert_eq!(g.get(&vec![1, 2]), 3);
    assert_eq!(g.get(&vec![1, 2, 7]), 10);
    assert_eq!(g.get(&vec![i64::MAX, i64::MAX, -1]), i64::MAX - 1);
}

#[test]
fn add_is_pointwise_sum() {
    let f = Add::new(CoordinateSum, Constant::new(-10));
    assert_eq!(f.get(&vec![3, 4]), -3);
}

#[test]
fn add_zero_is_identity() {
    let p = vec![5, -7, 11];
    let f = Add::new(Constant::new(0), CoordinateSum);
    assert_eq!(f.get(&p), CoordinateSum.get(&p));
}

#[test]
fn multiply_one_is_identity() {
    let p = vec![5, -7, 11];
    let f = Multiply::new(Constant::new(1), CoordinateSum);
    assert_eq!(f.get(&p), CoordinateSum.get(&p));
}

#[test]
fn multiply_constants() {
    let f = Multiply::new(Constant::new(3), Constant::new(4));
    assert_eq!(f.get(&vec![7, 9]), 12);
    assert_eq!(f.get(&vec![0, 0]), 12);
    assert_eq!(f.get(&vec![-1000]), 12);
}

#[test]
fn abs_is_nonnegative() {
    let f = Abs::new(CoordinateSum);
    assert_eq!(f.get(&vec![-3, -4]), 7);
    assert_eq!(f.get(&vec![3, 4]), 7);
    assert!(Abs::new(Constant::new(i64::MIN)).get(&vec![0, 0]) >= 0);
}

#[test]
fn average_of_two_fields() {
    let f = Average::new(Constant::new(10), Constant::new(20));
    assert_eq!(f.get(&vec![1, 2]), 15);
    let g = Average::new(Constant::new(-3), CoordinateSum);
    assert_eq!(g.get(&vec![1, 1]), 0);
    assert_eq!(g.get(&vec![10, 10]), 8);
}

#[test]
fn stub_generator_scenario() {
    let stub = CoordinateSum;
    let f = Add::new(stub, Constant::new(2));
    assert_eq!(f.get(&vec![1, 1]), 4);
}

#[test]
fn nested_composition() {
    // (|sum| + 1) * 2 at [3, -5]: (2 + 1) * 2 == 6
    let f = Multiply::new(Add::new(Abs::new(CoordinateSum), Constant::new(1)), Constant::new(2));
    assert_eq!(f.get(&vec![3, -5]), 6);
}
