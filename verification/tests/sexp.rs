use sexp_imm::sexp::{Sexp, UnrootedSexp};
use sexp_imm::sexp::{SEXP_EOF, SEXP_FALSE, SEXP_NULL, SEXP_TRUE, SEXP_VOID};

#[test]
fn imm_predicates() {
    let from_imm = UnrootedSexp::from_imm;

    let objs = [
        from_imm(0x03e),              // false
        from_imm(0x13e),              // true
        from_imm(0x23e),              // null
        from_imm(0x33e),              // eof
        from_imm(0x43e),              // void
        from_imm(1),                  // integer 0
        from_imm(51),                 // integer 25
        from_imm((-3isize) as usize), // integer -2
        from_imm(0xa1e),              // char 0xa = '\n'
        from_imm(0x411e),             // char 0x41 = 'A'
    ];

    for (i, obj) in objs.iter().enumerate() {
        let results = [
            obj.is_false(),
            obj.is_true(),
            obj.is_null(),
            obj.is_eof(),
            obj.is_void(),
            obj.as_fixnum() == Some(0),
            obj.as_fixnum() == Some(25),
            obj.as_fixnum() == Some(-2),
            obj.as_char() == Some('\n'),
            obj.as_char() == Some('A'),
        ];
        for (j, r) in results.iter().enumerate() {
            assert!((i == j) == *r, "pred[{}] on obj[{}] = {}", j, i, (i == j));
        }
    }
}

#[test]
fn fixnum_round_trip() {
    let cases: [isize; 7] = [
        0,
        25,
        -2,
        1,
        -1,
        isize::MAX >> 1,
        isize::MIN >> 1,
    ];
    for &n in cases.iter() {
        let word = ((n << 1) | 1) as usize;
        let v = UnrootedSexp::from_imm(word);
        assert_eq!(v.as_fixnum(), Some(n));
        assert!(v.is_fixnum());
    }
}

#[test]
fn char_round_trip() {
    for c in 0..=255u32 {
        let word = ((c as usize) << 8) | 0x1e;
        let v = UnrootedSexp::from_imm(word);
        let expect = char::from_u32(c).unwrap();
        assert_eq!(v.as_char(), Some(expect));
        assert!(v.is_char());
    }
}

#[test]
fn marker_exactness() {
    let markers: [usize; 5] = [62, 318, 574, 830, 1086];
    for (i, &m) in markers.iter().enumerate() {
        let v = UnrootedSexp::from_imm(m);
        assert_eq!(v.is_false(), i == 0);
        assert_eq!(v.is_true(), i == 1);
        assert_eq!(v.is_null(), i == 2);
        assert_eq!(v.is_eof(), i == 3);
        assert_eq!(v.is_void(), i == 4);
        assert_eq!(v.as_fixnum(), None);
        assert_eq!(v.as_char(), None);
        assert_eq!(v.as_bool().is_some(), i < 2);
    }
    assert_eq!(SEXP_FALSE, 62);
    assert_eq!(SEXP_TRUE, 318);
    assert_eq!(SEXP_NULL, 574);
    assert_eq!(SEXP_EOF, 830);
    assert_eq!(SEXP_VOID, 1086);
}

#[test]
fn marker_perturbation() {
    // Flipping any single bit of a marker word must defeat that marker's
    // own predicate: the predicates are exact comparisons, not mask tests.
    let markers: [usize; 5] = [62, 318, 574, 830, 1086];
    for (i, &m) in markers.iter().enumerate() {
        for k in 0..usize::BITS {
            let p = UnrootedSexp::from_imm(m ^ (1usize << k));
            let own = match i {
                0 => p.is_false(),
                1 => p.is_true(),
                2 => p.is_null(),
                3 => p.is_eof(),
                _ => p.is_void(),
            };
            assert!(!own, "marker {} with bit {} flipped", m, k);
        }
    }
}

#[test]
fn stub_invariance() {
    let words: [usize; 10] = [
        0x03e,
        0x13e,
        0x23e,
        0x33e,
        0x43e,
        1,
        51,
        (-3isize) as usize,
        0xa1e,
        0x411e,
    ];
    for &w in words.iter() {
        let v = UnrootedSexp::from_imm(w);
        assert_eq!(v.as_flonum(), None);
        assert_eq!(v.as_string(), None);
        assert_eq!(v.as_bytes(), None);
        assert!(!v.is_flonum());
        assert!(!v.is_string());
        assert!(!v.is_bytes());
    }
}

#[test]
fn concrete_scenarios() {
    let eof = UnrootedSexp::from_imm(0x33e);
    assert!(eof.is_eof());
    assert!(!eof.is_false());
    assert!(!eof.is_true());
    assert!(!eof.is_null());
    assert!(!eof.is_void());
    assert!(!eof.is_bool());
    assert!(!eof.is_fixnum());
    assert!(!eof.is_char());
    assert!(!eof.is_flonum());
    assert!(!eof.is_string());
    assert!(!eof.is_bytes());

    let minus_two = UnrootedSexp::from_imm((-3isize) as usize);
    assert_eq!(minus_two.as_fixnum(), Some(-2));

    let cap_a = UnrootedSexp::from_imm(0x411e);
    assert_eq!(cap_a.as_char(), Some('A'));

    let newline = UnrootedSexp::from_imm(0xa1e);
    assert_eq!(newline.as_char(), Some('\n'));

    let zero = UnrootedSexp::from_imm(1);
    assert_eq!(zero.as_fixnum(), Some(0));
}

#[test]
fn predicates_follow_converters() {
    let t = UnrootedSexp::from_imm(0x13e);
    assert!(t.is_bool());
    assert!(t.is_true());
    assert!(!t.is_false());
    assert_eq!(t.as_bool(), Some(true));

    let f = UnrootedSexp::from_imm(0x03e);
    assert!(f.is_bool());
    assert!(f.is_false());
    assert!(!f.is_true());
    assert_eq!(f.as_bool(), Some(false));

    // An unrecognized word (e.g. a heap reference) is absent everywhere.
    let opaque = UnrootedSexp::from_imm(0x1000);
    assert!(!opaque.is_bool());
    assert!(!opaque.is_fixnum());
    assert!(!opaque.is_char());
    assert!(!opaque.is_true());
    assert!(!opaque.is_false());
    assert!(!opaque.is_null());
    assert!(!opaque.is_eof());
    assert!(!opaque.is_void());
    assert_eq!(opaque.as_bool(), None);
    assert_eq!(opaque.as_fixnum(), None);
    assert_eq!(opaque.as_char(), None);
}

#[test]
fn equality_is_bitwise() {
    let a = UnrootedSexp::from_imm(51);
    let b = UnrootedSexp::from_imm(51);
    let c = UnrootedSexp::from_imm(53);
    assert_eq!(a, b);
    assert_ne!(a, c);
}
