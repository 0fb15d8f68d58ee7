//! Tests of the construction factories and the size accessor.

use mathi::vector;

fn vb(xs: &[f64]) -> Vec<u64> {
    xs.iter().map(|x| x.to_bits()).collect()
}

fn close_bits(a: u64, b: u64) -> bool {
    (f64::from_bits(a) - f64::from_bits(b)).abs() < 1e-6
}

fn all_close_to(v: &vector::Vector, val: f64) -> bool {
    let flags = v.compare_scalar(val.to_bits(), close_bits);
    vector::all(&flags)
}

#[test]
fn lib_test_new() {
    let arr: [f64; 3] = [1., 2., 3.];
    let v = vector::new(&vb(&arr));
    for i in 0..arr.len() {
        assert_eq!(v.index(i).unwrap(), arr[i].to_bits());
    }
}

#[test]
fn mod_test_new() {
    let arr: [f64; 3] = [1., 2., 3.];
    let v = vector::new(&vb(&arr));
    for i in 0..arr.len() {
        assert_eq!(v.index(i).unwrap(), arr[i].to_bits());
    }
}

#[test]
fn test_from() {
    let arr = vb(&[1., 2., 3.]);
    let a = vector::new(&arr);
    let b = vector::from(arr);
    assert!(a.eq(&b, close_bits));
}

#[test]
fn lib_test_full() {
    let size: usize = 5;
    let value: f64 = 17.33;
    let v = vector::full(size, value.to_bits());
    assert!(all_close_to(&v, value));
    assert_eq!(v.size(), size);
}

#[test]
fn mod_test_full() {
    let size: usize = 5;
    let value: f64 = 17.33;
    let v = vector::full(size, value.to_bits());
    assert!(all_close_to(&v, value));
    assert_eq!(v.size(), size);
}

#[test]
fn lib_test_zeros() {
    let size: usize = 5;
    let zv = vector::zeros(size);
    assert!(all_close_to(&zv, 0.));
}

#[test]
fn mod_test_zeros() {
    let size: usize = 5;
    let zeros = vector::zeros(size);
    assert!(vector::is_zero(&zeros));
    assert!(zeros.is_zero());
}

#[test]
fn lib_test_ones() {
    let size: usize = 7;
    let ones = vector::ones(size);
    assert!(all_close_to(&ones, 1.));
}

#[test]
fn mod_test_ones() {
    let size: usize = 7;
    let ones = vector::ones(size);
    assert!(all_close_to(&ones, 1.));
}

#[test]
fn lib_test_full_like() {
    let v = vector::new(&vb(&[-1., 2., 3.]));
    let value: f64 = -1.5;
    let new_v = vector::full_like(&v, value.to_bits());
    assert!(all_close_to(&new_v, value));
    assert_eq!(new_v.size(), v.size());
}

#[test]
fn mod_test_full_like() {
    let v = vector::new(&vb(&[-1., 2., 3.]));
    let value: f64 = -1.5;
    let new_v = vector::full_like(&v, value.to_bits());
    assert!(all_close_to(&new_v, value));
    assert_eq!(new_v.size(), v.size());
}

#[test]
fn lib_test_zeros_like() {
    let v = vector::new(&vb(&[-1., 2., 3.]));
    let new_v = vector::zeros_like(&v);
    assert!(all_close_to(&new_v, 0.));
    assert_eq!(new_v.size(), v.size());
}

#[test]
fn mod_test_zeros_like() {
    let v = vector::new(&vb(&[-1., 2., 3.]));
    let new_v = vector::zeros_like(&v);
    assert!(new_v.is_zero());
    assert_eq!(new_v.size(), v.size());
}

#[test]
fn lib_test_ones_like() {
    let v = vector::new(&vb(&[-1., 2., 3.]));
    let new_v = vector::ones_like(&v);
    assert!(all_close_to(&new_v, 1.));
    assert_eq!(new_v.size(), v.size());
}

#[test]
fn mod_test_ones_like() {
    let v = vector::new(&vb(&[-1., 2., 3.]));
    let new_v = vector::ones_like(&v);
    assert!(all_close_to(&new_v, 1.));
    assert_eq!(new_v.size(), v.size());
}

#[test]
fn lib_test_size() {
    let v = vector::new(&vb(&[1., 2., 3.]));
    assert_eq!(v.size(), 3);
}

#[test]
fn mod_test_size() {
    let v = vector::new(&vb(&[1., 2., 3.]));
    assert_eq!(v.size(), 3);
}

#[test]
fn test_full_every_component() {
    let size: usize = 9;
    let value: f64 = -2.75;
    let v = vector::full(size, value.to_bits());
    assert_eq!(v.size(), size);
    for i in 0..size {
        assert_eq!(v.index(i).unwrap(), value.to_bits());
    }
}

#[test]
fn test_full_empty() {
    let v = vector::full(0, (4.5f64).to_bits());
    assert_eq!(v.size(), 0);
    assert!(v.is_zero());
}

#[test]
fn test_zeros_matches_full() {
    let n: usize = 6;
    let zv = vector::zeros(n);
    let fv = vector::full(n, (0.0f64).to_bits());
    assert!(zv.eq(&fv, close_bits));
}

#[test]
fn test_ones_matches_full() {
    let n: usize = 6;
    let ov = vector::ones(n);
    let fv = vector::full(n, (1.0f64).to_bits());
    assert!(ov.eq(&fv, close_bits));
}
