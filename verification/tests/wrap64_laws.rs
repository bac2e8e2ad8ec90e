use fieldlike::arithmetic::One;
use fieldlike::arithmetic::Zero;
use fieldlike::field::Field;
use fieldlike::wrap64::Wrap64;

// Each suite samples values in the spirit of {-1, 0, 1, pi, e}: the additive
// inverse of one, the two identities, and two arbitrary large residues taken
// from the leading digits of pi and e.

#[test]
fn test_wrap64_zero_is_additive_identity() {
    let sample: [u64; 5] = [u64::MAX, 0, 1, 3_141_592_653_589_793_238, 2_718_281_828_459_045_235];
    for s in sample {
        let t = Wrap64 { v: s };
        assert_eq!(t.add(Wrap64::zero()), t);
        assert_eq!(Wrap64::zero().add(t), t);
    }
}

#[test]
fn test_wrap64_zero_is_subtractive_identity() {
    let sample: [u64; 5] = [u64::MAX, 0, 1, 3_141_592_653_589_793_238, 2_718_281_828_459_045_235];
    for s in sample {
        let t = Wrap64 { v: s };
        assert_eq!(t.sub(Wrap64::zero()), t);
        assert_eq!(Wrap64::zero().sub(t), t.neg());
    }
}

#[test]
fn test_wrap64_zero_annihilates() {
    let sample: [u64; 5] = [u64::MAX, 0, 1, 3_141_592_653_589_793_238, 2_718_281_828_459_045_235];
    for s in sample {
        let t = Wrap64 { v: s };
        assert_eq!(t.mul(Wrap64::zero()), Wrap64::zero());
        assert_eq!(Wrap64::zero().mul(t), Wrap64::zero());
    }
}

#[test]
fn test_wrap64_neg_of_zero_is_zero() {
    let z: Wrap64 = Wrap64::zero();
    assert_eq!(z.neg(), z);
}

#[test]
fn test_wrap64_one_is_multiplicative_identity() {
    let sample: [u64; 5] = [u64::MAX, 0, 1, 3_141_592_653_589_793_238, 2_718_281_828_459_045_235];
    for s in sample {
        let t = Wrap64 { v: s };
        assert_eq!(t.mul(Wrap64::one()), t);
        assert_eq!(Wrap64::one().mul(t), t);
    }
}

#[test]
fn test_wrap64_div_by_one_is_identity() {
    let sample: [u64; 5] = [u64::MAX, 0, 1, 3_141_592_653_589_793_238, 2_718_281_828_459_045_235];
    for s in sample {
        let t = Wrap64 { v: s };
        assert_eq!(t.div(Wrap64::one()), t);
    }
}

#[test]
fn test_wrap64_add_wraps_around() {
    let max = Wrap64 { v: u64::MAX };
    assert_eq!(max.add(Wrap64 { v: 1 }), Wrap64 { v: 0 });
    assert_eq!(max.add(max), Wrap64 { v: u64::MAX - 1 });
    assert_eq!(Wrap64 { v: 5 }.add(Wrap64 { v: 7 }), Wrap64 { v: 12 });
}

#[test]
fn test_wrap64_sub_wraps_around() {
    assert_eq!(
        Wrap64 { v: 0 }.sub(Wrap64 { v: 1 }),
        Wrap64 { v: u64::MAX }
    );
    assert_eq!(
        Wrap64 { v: 5 }.sub(Wrap64 { v: 7 }),
        Wrap64 { v: u64::MAX - 1 }
    );
    assert_eq!(Wrap64 { v: 7 }.sub(Wrap64 { v: 5 }), Wrap64 { v: 2 });
}

#[test]
fn test_wrap64_mul_wraps_around() {
    assert_eq!(
        Wrap64 { v: 1 << 63 }.mul(Wrap64 { v: 2 }),
        Wrap64 { v: 0 }
    );
    // (-1) * (-1) == 1 modulo 2^64.
    let max = Wrap64 { v: u64::MAX };
    assert_eq!(max.mul(max), Wrap64 { v: 1 });
    assert_eq!(Wrap64 { v: 6 }.mul(Wrap64 { v: 7 }), Wrap64 { v: 42 });
}

#[test]
fn test_wrap64_neg_is_additive_inverse() {
    assert_eq!(Wrap64 { v: 1 }.neg(), Wrap64 { v: u64::MAX });
    assert_eq!(Wrap64 { v: u64::MAX }.neg(), Wrap64 { v: 1 });
    let sample: [u64; 5] = [u64::MAX, 0, 1, 3_141_592_653_589_793_238, 2_718_281_828_459_045_235];
    for s in sample {
        let t = Wrap64 { v: s };
        assert_eq!(t.add(t.neg()), Wrap64::zero());
    }
}

#[test]
fn test_wrap64_new_and_value_round_trip() {
    let t = Wrap64::new(42);
    assert_eq!(t, Wrap64 { v: 42 });
    assert_eq!(t.value(), 42);
    assert_eq!(Wrap64::new(u64::MAX).value(), u64::MAX);
}

#[test]
fn test_wrap64_div_truncates() {
    assert_eq!(Wrap64 { v: 7 }.div(Wrap64 { v: 2 }), Wrap64 { v: 3 });
    assert_eq!(Wrap64 { v: 1 }.div(Wrap64 { v: 2 }), Wrap64 { v: 0 });
    assert_eq!(
        Wrap64 { v: u64::MAX }.div(Wrap64 { v: u64::MAX }),
        Wrap64 { v: 1 }
    );
}
