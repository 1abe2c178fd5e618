use gf::{GF, GF256Simd};

#[test]
fn simd_add_sub() {
    assert_eq!(
        (GF256Simd::<64>::splat(5u8) + GF256Simd::splat(60)) - GF256Simd::splat(5),
        GF256Simd::splat(60)
    )
}

#[test]
fn splat_fills_every_lane() {
    let v = GF256Simd::<8>::splat(7);
    assert_eq!(v.0, [7u8; 8]);
    let e = GF256Simd::<0>::splat(7);
    assert_eq!(e.0, [0u8; 0]);
}

#[test]
fn lanes_to_and_from_arrays() {
    let v: GF256Simd<4> = GF::from([1u8, 2, 3, 4]);
    assert_eq!(v, GF([1u8, 2, 3, 4]));
    let back: [u8; 4] = v.into();
    assert_eq!(back, [1, 2, 3, 4]);
}

#[test]
fn lanes_agree_with_scalar_operations() {
    let a: [u8; 8] = [0, 1, 2, 5, 60, 128, 200, 255];
    let b: [u8; 8] = [9, 1, 142, 60, 5, 128, 3, 255];
    let sum = GF(a) + GF(b);
    let difference = GF(a) - GF(b);
    let product = GF(a) * GF(b);
    let quotient = GF(a) / GF(b);
    for i in 0..8 {
        assert_eq!(GF(sum.0[i]), GF(a[i]) + GF(b[i]));
        assert_eq!(GF(difference.0[i]), GF(a[i]) - GF(b[i]));
        assert_eq!(GF(product.0[i]), GF(a[i]) * GF(b[i]));
        assert_eq!(GF(quotient.0[i]), GF(a[i]) / GF(b[i]));
    }
}

#[test]
fn lanes_agree_with_scalar_on_all_pairs() {
    for a in 0..=255u8 {
        let mut rhs = [0u8; 256];
        for (i, r) in rhs.iter_mut().enumerate() {
            *r = i as u8;
        }
        let product = GF256Simd::<256>::splat(a) * GF(rhs);
        for i in 0..256 {
            assert_eq!(GF(product.0[i]), GF(a) * GF(rhs[i]));
        }
        if a != 0 {
            let quotient = GF(rhs) / GF256Simd::<256>::splat(a);
            for i in 0..256 {
                assert_eq!(GF(quotient.0[i]), GF(rhs[i]) / GF(a));
            }
        }
    }
}

#[test]
fn product_with_zero_lanes() {
    let a: GF256Simd<4> = GF([0, 0, 7, 255]);
    let b: GF256Simd<4> = GF([0, 9, 0, 255]);
    assert_eq!(a * b, GF([0, 0, 0, 226]));
}

#[test]
fn known_lane_values() {
    let a: GF256Simd<4> = GF([5, 2, 3, 4]);
    let b: GF256Simd<4> = GF([60, 128, 3, 4]);
    assert_eq!(a + b, GF([57, 130, 0, 0]));
    assert_eq!(a * b, GF([204, 29, 5, 16]));
    assert_eq!(a * b / b, a);
}

#[test]
fn division_with_a_zero_lane_is_absent() {
    let a: GF256Simd<4> = GF([1, 2, 3, 4]);
    assert_eq!(a.checked_div(GF([1, 0, 3, 4])), None);
    assert_eq!(a.checked_div(GF([0, 0, 0, 0])), None);
    assert_eq!(a.checked_div(GF([1, 2, 3, 0])), None);
    assert_eq!(a.checked_div(GF([1, 2, 3, 4])), Some(GF([1, 1, 1, 1])));
    assert_eq!(GF([0u8, 0]).checked_div(GF([5, 6])), Some(GF([0, 0])));
}

#[test]
fn inverse_lane_by_lane() {
    let a: GF256Simd<4> = GF([1, 2, 142, 255]);
    let inv = a.inv().unwrap();
    assert_eq!(inv.0[0], 1);
    assert_eq!(inv.0[1], 142);
    assert_eq!(inv.0[2], 2);
    assert_eq!(a * inv, GF256Simd::splat(1));
    for i in 0..4 {
        assert_eq!(Some(GF(inv.0[i])), GF(a.0[i]).inv());
    }
}

#[test]
fn inverse_with_a_zero_lane_is_absent() {
    assert_eq!(GF([1u8, 0, 3]).inv(), None);
    assert_eq!(GF([0u8]).inv(), None);
    assert_eq!(GF::<[u8; 0]>([]).inv(), Some(GF([])));
}

#[test]
fn power_lane_by_lane() {
    let a: GF256Simd<6> = GF([0, 0, 5, 5, 4, 2]);
    let e: [usize; 6] = [0, 3, 0, 1, 2, 255];
    let p = a.pow(e);
    assert_eq!(p, GF([1, 0, 1, 5, 16, 1]));
    for i in 0..6 {
        assert_eq!(GF(p.0[i]), GF(a.0[i]).pow(e[i]));
    }
}

#[test]
fn sum_of_lanes() {
    assert_eq!(GF([1u8, 2, 4, 8]).sum_lanes(), 15);
    assert_eq!(GF([5u8, 60, 5]).sum_lanes(), 60);
    assert_eq!(GF::<[u8; 0]>([]).sum_lanes(), 0);
    assert_eq!(GF256Simd::<64>::splat(9).sum_lanes(), 0);
    assert_eq!(GF256Simd::<3>::splat(9).sum_lanes(), 9);
}

#[test]
fn lanes_in_place_and_by_reference() {
    let a: GF256Simd<3> = GF([5, 2, 0]);
    let b: GF256Simd<3> = GF([60, 128, 9]);
    assert_eq!(&a + &b, GF([57, 130, 9]));
    assert_eq!(&a * b, GF([204, 29, 0]));
    let mut x = a;
    x += b;
    assert_eq!(x, GF([57, 130, 9]));
    x -= &b;
    assert_eq!(x, a);
    x *= b;
    assert_eq!(x, GF([204, 29, 0]));
    x /= b;
    assert_eq!(x, a);
}
