use linalg::mat3::mat3;
use linalg::quaternion::quaternion;
use linalg::quaternion::Quaternion;
use linalg::vec3::vec3;

#[test]
fn quaternion_holds_its_parts_in_order() {
    let q = quaternion(1, 2, 3, 4);
    assert_eq!(q, Quaternion { r: 1, i: 2, j: 3, k: 4 });
    assert_eq!(q[0], 1);
    assert_eq!(q[1], 2);
    assert_eq!(q[2], 3);
    assert_eq!(q[3], 4);
}

#[test]
fn writing_a_part_by_its_position() {
    let mut q = quaternion(1, 2, 3, 4);
    q[0] = 9;
    q[3] = 7;
    assert_eq!(q, quaternion(9, 2, 3, 7));
}

#[test]
fn hamilton_product_of_the_units() {
    let one = quaternion(1, 0, 0, 0);
    let i = quaternion(0, 1, 0, 0);
    let j = quaternion(0, 0, 1, 0);
    let k = quaternion(0, 0, 0, 1);
    assert_eq!(i * j, k);
    assert_eq!(j * k, i);
    assert_eq!(k * i, j);
    assert_eq!(j * i, quaternion(0, 0, 0, -1));
    assert_eq!(i * i, quaternion(-1, 0, 0, 0));
    assert_eq!(one * k, k);
    assert_eq!(quaternion(1, 2, 3, 4) * quaternion(5, 6, 7, 8), quaternion(-60, 12, 30, 24));
}

#[test]
fn product_of_a_sequence_composes_in_order() {
    let i = quaternion(0, 1, 0, 0);
    let j = quaternion(0, 0, 1, 0);
    let k = quaternion(0, 0, 0, 1);
    assert_eq!(Quaternion::product(&[i, j]), k);
    assert_eq!(Quaternion::product(&[j, i]), quaternion(0, 0, 0, -1));
    assert_eq!(Quaternion::product(&[i, j, k]), quaternion(-1, 0, 0, 0));
    let none: [Quaternion<i32>; 0] = [];
    assert_eq!(Quaternion::product(&none), quaternion(1, 0, 0, 0));
}
