use nalgebra::DVector;

#[test]
fn bfgs_test_outer() {
    let a = DVector::from_vec(vec![1.0, 2.0]);
    let b = DVector::from_vec(vec![3.0, 4.0]);
    let c = a * b.transpose();
    println!("{:?}", c);
}

#[test]
fn broyden_b_test_outer() {
    let a = DVector::from_vec(vec![1.0, 2.0]);
    let b = DVector::from_vec(vec![3.0, 4.0]);
    let c = a * b.transpose();
    println!("{:?}", c);
}

#[test]
fn sr1_test_outer() {
    let a = DVector::from_vec(vec![1.0, 2.0]);
    let b = DVector::from_vec(vec![3.0, 4.0]);
    let c = a * b.transpose();
    println!("{:?}", c);
}

#[test]
fn outeer() {
    let x1 = DVector::from_vec(vec![1.0, 1.0]);
    let x2 = DVector::from_vec(vec![1.0, 1.0]);
    let r = x1 * x2.transpose();
    println!("{:?}", r);
    let x3 = DVector::from_vec(vec![2.0, 2.0]);
    let r = r * x3;
    println!("{:?}", r);
}
