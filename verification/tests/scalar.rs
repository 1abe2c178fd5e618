use gf::GF;

/// Multiplication bit by bit, without tables: the product of the two
/// polynomials, reduced modulo 0x11D as it grows.
fn slow_mul(a: u8, b: u8) -> u8 {
    let mut acc: u16 = 0;
    let mut shifted: u16 = a as u16;
    for k in 0..8 {
        if (b >> k) & 1 == 1 {
            acc ^= shifted;
        }
        shifted <<= 1;
        if shifted & 0x100 != 0 {
            shifted ^= 0x11d;
        }
    }
    acc as u8
}

fn slow_pow(a: u8, n: usize) -> u8 {
    let mut r = 1u8;
    for _ in 0..n {
        r = slow_mul(r, a);
    }
    r
}

#[test]
fn lib_add_sub() {
    assert_eq!((GF(5u8) + GF(60)) - GF(5), GF(60))
}

#[test]
fn mul_div() {
    assert_eq!((GF(5u8) * GF(60)) / GF(5), GF(60))
}

#[test]
fn pow() {
    assert_eq!(GF(5u8).pow(0), GF(1))
}

#[test]
fn pow1() {
    assert_eq!(GF(5u8).pow(1), GF(5))
}

#[test]
fn pow2() {
    assert_eq!(GF(4u8).pow(2), GF(4) * GF(4))
}

#[test]
fn conv() {
    assert_eq!(GF::from(34u8), GF(34u8));
    let x: u8 = GF(34u8).into();
    assert!(x == 34);
}

#[test]
fn identities() {
    assert_eq!(GF::<u8>::zero(), GF(0u8));
    assert_eq!(GF::<u8>::one(), GF(1u8));
    assert!(GF(0u8).is_zero());
    assert!(!GF(1u8).is_zero());
    assert_eq!(GF::<u8>::default(), GF(0u8));
}

#[test]
fn add_is_xor() {
    assert_eq!(GF(0b1100u8) + GF(0b1010), GF(0b0110));
    assert_eq!(GF(0b1100u8) - GF(0b1010), GF(0b0110));
    assert_eq!(-GF(77u8), GF(77));
}

#[test]
fn add_laws_on_every_element() {
    for a in 0..=255u8 {
        assert_eq!(GF(a) + GF(a), GF(0));
        assert_eq!(GF(a) + GF(0), GF(a));
        assert_eq!(GF(a) * GF(1), GF(a));
        assert_eq!(GF(a) * GF(0), GF(0));
        assert_eq!(GF(0) * GF(a), GF(0));
    }
}

#[test]
fn mul_known_products() {
    assert_eq!(GF(2u8) * GF(2), GF(4));
    assert_eq!(GF(2u8) * GF(128), GF(29));
    assert_eq!(GF(3u8) * GF(3), GF(5));
    assert_eq!(GF(4u8) * GF(4), GF(16));
    assert_eq!(GF(5u8) * GF(60), GF(204));
    assert_eq!(GF(255u8) * GF(255), GF(226));
    assert_eq!(GF(142u8) * GF(2), GF(1));
}

#[test]
fn mul_agrees_with_polynomial_product() {
    for a in 0..=255u8 {
        for b in 0..=255u8 {
            assert_eq!((GF(a) * GF(b)).0, slow_mul(a, b), "{} * {}", a, b);
        }
    }
}

#[test]
fn mul_is_commutative_and_associative() {
    for a in (0..=255u8).step_by(7) {
        for b in (0..=255u8).step_by(5) {
            assert_eq!(GF(a) * GF(b), GF(b) * GF(a));
            for c in (0..=255u8).step_by(11) {
                assert_eq!((GF(a) * GF(b)) * GF(c), GF(a) * (GF(b) * GF(c)));
                assert_eq!((GF(a) + GF(b)) + GF(c), GF(a) + (GF(b) + GF(c)));
                assert_eq!(GF(a) * (GF(b) + GF(c)), GF(a) * GF(b) + GF(a) * GF(c));
            }
        }
    }
}

#[test]
fn inverse_of_every_nonzero_element() {
    for a in 1..=255u8 {
        let inv = GF(a).inv().unwrap();
        assert_eq!(GF(a) * inv, GF(1));
        assert_eq!(GF(a) / GF(a), GF(1));
        assert_eq!(inv.0, slow_pow(a, 254));
    }
}

#[test]
fn inverse_known_values() {
    assert_eq!(GF(1u8).inv(), Some(GF(1)));
    assert_eq!(GF(2u8).inv(), Some(GF(142)));
    assert_eq!(GF(142u8).inv(), Some(GF(2)));
}

#[test]
fn inverse_of_zero_is_absent() {
    assert_eq!(GF(0u8).inv(), None);
}

#[test]
fn division_by_zero_is_absent() {
    assert_eq!(GF(0u8).checked_div(GF(0)), None);
    for a in 0..=255u8 {
        assert_eq!(GF(a).checked_div(GF(0)), None);
    }
}

#[test]
fn checked_div_agrees_with_div() {
    for a in 0..=255u8 {
        for b in 1..=255u8 {
            assert_eq!(GF(a).checked_div(GF(b)), Some(GF(a) / GF(b)));
        }
    }
}

#[test]
fn div_undoes_mul() {
    for a in 0..=255u8 {
        for b in 1..=255u8 {
            assert_eq!((GF(a) * GF(b)) / GF(b), GF(a));
        }
    }
}

#[test]
fn div_known_values() {
    assert_eq!(GF(0u8) / GF(7), GF(0));
    assert_eq!(GF(1u8) / GF(2), GF(142));
    assert_eq!(GF(204u8) / GF(5), GF(60));
    assert_eq!(GF(4u8) / GF(2), GF(2));
}

#[test]
fn pow_of_zero() {
    assert_eq!(GF(0u8).pow(0), GF(1));
    assert_eq!(GF(0u8).pow(1), GF(0));
    assert_eq!(GF(0u8).pow(255), GF(0));
    assert_eq!(GF(0u8).pow(usize::MAX), GF(0));
}

#[test]
fn pow_small_exponents_on_every_element() {
    for a in 0..=255u8 {
        assert_eq!(GF(a).pow(0), GF(1));
        assert_eq!(GF(a).pow(1), GF(a));
        assert_eq!(GF(a).pow(2), GF(a) * GF(a));
    }
}

#[test]
fn pow_known_values() {
    assert_eq!(GF(2u8).pow(8), GF(29));
    assert_eq!(GF(2u8).pow(255), GF(1));
    assert_eq!(GF(2u8).pow(256), GF(2));
    assert_eq!(GF(3u8).pow(255), GF(1));
    assert_eq!(GF(2u8).pow(254), GF(142));
}

#[test]
fn pow_agrees_with_repeated_product() {
    for a in 0..=255u8 {
        for n in [0usize, 1, 2, 3, 7, 8, 100, 254, 255, 256, 300, 511] {
            assert_eq!(GF(a).pow(n).0, slow_pow(a, n), "{} ^ {}", a, n);
        }
    }
}

#[test]
fn pow_of_large_exponent() {
    let n = usize::MAX;
    let reduced = (n % 255) as usize;
    for a in 1..=255u8 {
        assert_eq!(GF(a).pow(n), GF(a).pow(reduced));
    }
}

#[test]
fn pow_by_squaring_agrees_with_pow() {
    for a in 0..=255u8 {
        for n in 0..=255u8 {
            assert_eq!(GF(a).pow_by_squaring(n), GF(a).pow(n as usize));
        }
    }
}

#[test]
fn square_in_place() {
    let mut x = GF(4u8);
    x.square();
    assert_eq!(x, GF(16));
    let mut y = GF(128u8);
    y.square();
    assert_eq!(y.0, slow_mul(128, 128));
}

#[test]
fn in_place_operations() {
    let mut x = GF(5u8);
    x += GF(60);
    assert_eq!(x, GF(57));
    x -= GF(5);
    assert_eq!(x, GF(60));
    x *= GF(5);
    assert_eq!(x, GF(204));
    x /= GF(5);
    assert_eq!(x, GF(60));
    x *= &GF(0);
    assert_eq!(x, GF(0));
}

#[test]
fn operations_on_references() {
    let a = GF(5u8);
    let b = GF(60u8);
    assert_eq!(&a + b, GF(57));
    assert_eq!(a + &b, GF(57));
    assert_eq!(&a + &b, GF(57));
    assert_eq!(&a - &b, GF(57));
    assert_eq!(&a * b, GF(204));
    assert_eq!(a * &b, GF(204));
    assert_eq!(&a * &b, GF(204));
    assert_eq!(&GF(204u8) / a, b);
    assert_eq!(GF(204u8) / &a, b);
    assert_eq!(&GF(204u8) / &a, b);
}
