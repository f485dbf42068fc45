use lwe_kernel::Cleartext;
use lwe_kernel::LweCiphertext;
use lwe_kernel::Plaintext;
use lwe_kernel::lwe_ciphertext_addition;
use lwe_kernel::lwe_ciphertext_cleartext_multiplication;
use lwe_kernel::lwe_ciphertext_in_place_addition;
use lwe_kernel::lwe_ciphertext_in_place_cleartext_multiplication;
use lwe_kernel::lwe_ciphertext_in_place_opposite;
use lwe_kernel::lwe_ciphertext_in_place_plaintext_addition;
use lwe_kernel::lwe_ciphertext_in_place_subtraction;

fn ct_u8(coeffs: &[u8]) -> LweCiphertext<u8> {
    LweCiphertext::from_container(coeffs.to_vec())
}

fn coeffs_u8(ct: LweCiphertext<u8>) -> Vec<u8> {
    ct.into_container()
}

#[test]
fn addition_basic() {
    let lhs = ct_u8(&[1, 2, 3, 4]);
    let rhs = ct_u8(&[10, 20, 30, 40]);
    let mut out = ct_u8(&[0, 0, 0, 0]);
    lwe_ciphertext_addition(&mut out, &lhs, &rhs);
    assert_eq!(coeffs_u8(out), vec![11, 22, 33, 44]);
}

#[test]
fn addition_wraparound() {
    let lhs = ct_u8(&[250, 250, 250, 250]);
    let rhs = ct_u8(&[10, 10, 10, 10]);
    let mut out = ct_u8(&[0, 0, 0, 0]);
    lwe_ciphertext_addition(&mut out, &lhs, &rhs);
    assert_eq!(coeffs_u8(out), vec![4, 4, 4, 4]);
}

#[test]
fn opposite_negates_every_coordinate() {
    let mut ct = ct_u8(&[1, 2, 3, 4]);
    lwe_ciphertext_in_place_opposite(&mut ct);
    assert_eq!(coeffs_u8(ct), vec![255, 254, 253, 252]);
}

#[test]
fn cleartext_multiplication_by_two() {
    let lhs = ct_u8(&[1, 2, 3, 4]);
    let mut out = ct_u8(&[0, 0, 0, 0]);
    lwe_ciphertext_cleartext_multiplication(&mut out, &lhs, Cleartext(2));
    assert_eq!(coeffs_u8(out), vec![2, 4, 6, 8]);
}

#[test]
fn plaintext_addition_touches_body_only() {
    let mut ct = ct_u8(&[1, 2, 3, 4]);
    lwe_ciphertext_in_place_plaintext_addition(&mut ct, Plaintext(5));
    assert_eq!(coeffs_u8(ct), vec![1, 2, 3, 9]);
}

#[test]
fn plaintext_addition_wraps_in_body() {
    let mut ct = ct_u8(&[1, 2, 3, 250]);
    lwe_ciphertext_in_place_plaintext_addition(&mut ct, Plaintext(10));
    assert_eq!(coeffs_u8(ct), vec![1, 2, 3, 4]);
}

#[test]
fn addition_commutes() {
    let a = ct_u8(&[17, 200, 3, 255]);
    let b = ct_u8(&[99, 77, 254, 128]);
    let mut ab = ct_u8(&[0, 0, 0, 0]);
    let mut ba = ct_u8(&[0, 0, 0, 0]);
    lwe_ciphertext_addition(&mut ab, &a, &b);
    lwe_ciphertext_addition(&mut ba, &b, &a);
    assert_eq!(coeffs_u8(ab), coeffs_u8(ba));
}

#[test]
fn in_place_addition_matches_addition() {
    let a = ct_u8(&[17, 200, 3, 255]);
    let b = ct_u8(&[99, 77, 254, 128]);
    let mut in_place = ct_u8(&[17, 200, 3, 255]);
    lwe_ciphertext_in_place_addition(&mut in_place, &b);
    let mut out = ct_u8(&[0, 0, 0, 0]);
    lwe_ciphertext_addition(&mut out, &a, &b);
    assert_eq!(coeffs_u8(in_place), coeffs_u8(out));
}

#[test]
fn addition_with_opposite_gives_zero() {
    let ct = ct_u8(&[0, 1, 128, 255]);
    let mut opposite = ct_u8(&[0, 1, 128, 255]);
    lwe_ciphertext_in_place_opposite(&mut opposite);
    let mut out = ct_u8(&[9, 9, 9, 9]);
    lwe_ciphertext_addition(&mut out, &ct, &opposite);
    assert_eq!(coeffs_u8(out), vec![0, 0, 0, 0]);
}

#[test]
fn cleartext_multiplication_by_one_is_identity() {
    let lhs = ct_u8(&[0, 1, 128, 255]);
    let mut out = ct_u8(&[9, 9, 9, 9]);
    lwe_ciphertext_cleartext_multiplication(&mut out, &lhs, Cleartext(1));
    assert_eq!(coeffs_u8(out), vec![0, 1, 128, 255]);
}

#[test]
fn cleartext_multiplication_by_zero_gives_zero() {
    let lhs = ct_u8(&[0, 1, 128, 255]);
    let mut out = ct_u8(&[9, 9, 9, 9]);
    lwe_ciphertext_cleartext_multiplication(&mut out, &lhs, Cleartext(0));
    assert_eq!(coeffs_u8(out), vec![0, 0, 0, 0]);
}

#[test]
fn in_place_cleartext_multiplication_wraps() {
    let mut ct = ct_u8(&[128, 200, 3, 4]);
    lwe_ciphertext_in_place_cleartext_multiplication(&mut ct, Cleartext(2));
    assert_eq!(coeffs_u8(ct), vec![0, 144, 6, 8]);
}

#[test]
fn subtraction_wraps() {
    let mut lhs = ct_u8(&[4, 4, 4, 4]);
    let rhs = ct_u8(&[10, 10, 10, 10]);
    lwe_ciphertext_in_place_subtraction(&mut lhs, &rhs);
    assert_eq!(coeffs_u8(lhs), vec![250, 250, 250, 250]);
}

#[test]
fn subtraction_of_self_gives_zero() {
    let mut lhs = ct_u8(&[17, 200, 3, 255]);
    let rhs = ct_u8(&[17, 200, 3, 255]);
    lwe_ciphertext_in_place_subtraction(&mut lhs, &rhs);
    assert_eq!(coeffs_u8(lhs), vec![0, 0, 0, 0]);
}

#[test]
fn body_only_ciphertext() {
    let mut ct = ct_u8(&[7]);
    lwe_ciphertext_in_place_plaintext_addition(&mut ct, Plaintext(1));
    assert_eq!(coeffs_u8(ct), vec![8]);

    let mut neg = ct_u8(&[1]);
    lwe_ciphertext_in_place_opposite(&mut neg);
    assert_eq!(coeffs_u8(neg), vec![255]);
}

#[test]
fn opposite_of_zero_is_zero() {
    let mut ct = ct_u8(&[0, 0, 0, 0]);
    lwe_ciphertext_in_place_opposite(&mut ct);
    assert_eq!(coeffs_u8(ct), vec![0, 0, 0, 0]);
}

#[test]
fn accessors_read_the_coordinates() {
    let ct = ct_u8(&[1, 2, 3, 4]);
    assert_eq!(ct.lwe_size_exec(), 4);
    assert_eq!(ct.get(0), 1);
    assert_eq!(ct.get(3), 4);
}

#[test]
fn addition_wraps_at_u16_width() {
    let mut lhs: LweCiphertext<u16> = LweCiphertext::from_container(vec![65535, 2, 40000]);
    let rhs: LweCiphertext<u16> = LweCiphertext::from_container(vec![1, 3, 40000]);
    lwe_ciphertext_in_place_addition(&mut lhs, &rhs);
    assert_eq!(lhs.into_container(), vec![0, 5, 14464]);
}

#[test]
fn addition_wraps_at_u32_width() {
    let mut lhs: LweCiphertext<u32> = LweCiphertext::from_container(vec![4294967295, 10]);
    let rhs: LweCiphertext<u32> = LweCiphertext::from_container(vec![2, 20]);
    lwe_ciphertext_in_place_addition(&mut lhs, &rhs);
    assert_eq!(lhs.into_container(), vec![1, 30]);
}

#[test]
fn arithmetic_wraps_at_u64_width() {
    let mut lhs: LweCiphertext<u64> = LweCiphertext::from_container(vec![u64::MAX, 1, 7]);
    let rhs: LweCiphertext<u64> = LweCiphertext::from_container(vec![1, u64::MAX, 0]);
    lwe_ciphertext_in_place_addition(&mut lhs, &rhs);
    assert_eq!(lhs.into_container(), vec![0, 0, 7]);

    let mut prod: LweCiphertext<u64> = LweCiphertext::from_container(vec![1 << 63, 3]);
    lwe_ciphertext_in_place_cleartext_multiplication(&mut prod, Cleartext(2));
    assert_eq!(prod.into_container(), vec![0, 6]);

    let mut neg: LweCiphertext<u64> = LweCiphertext::from_container(vec![1, 0]);
    lwe_ciphertext_in_place_opposite(&mut neg);
    assert_eq!(neg.into_container(), vec![u64::MAX, 0]);
}
