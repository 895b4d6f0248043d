use faster::caps::{required_capability, Capability, CapabilitySet, ElemKind};
use faster::cmp::PackedCmp;
use faster::lane::Lane;
use faster::ops::BinOp;
use faster::packed::Packed;

fn all_caps() -> CapabilitySet {
    CapabilitySet {
        sse2: true,
        sse41: true,
        avx2: true,
    }
}

fn no_caps() -> CapabilitySet {
    CapabilitySet::portable()
}

fn lanes_of<T: Lane>(p: &Packed<T>) -> Vec<T> {
    let mut v = Vec::new();
    let mut i = 0;
    while i < p.lane_count() {
        v.push(p.lane(i));
        i += 1;
    }
    v
}

#[test]
fn max_i8_scenario() {
    // An 8-bit-signed shape, lanes [1, 0] against [2, -1]: max is [2, 0].
    let a = Packed::from_lanes(vec![1i8, 0]);
    let b = Packed::from_lanes(vec![2i8, -1]);
    let r = a.max(&b, &all_caps());
    assert_eq!(lanes_of(&r), vec![2i8, 0]);
    let r = a.max(&b, &no_caps());
    assert_eq!(lanes_of(&r), vec![2i8, 0]);
}

#[test]
fn max_i8_scenario_full_width() {
    // The same comparison in the first two lanes of a full 16-lane vector,
    // where the accelerated path applies.
    let mut xs = vec![0i8; 16];
    let mut ys = vec![0i8; 16];
    xs[0] = 1;
    xs[1] = 0;
    ys[0] = 2;
    ys[1] = -1;
    let a = Packed::from_lanes(xs);
    let b = Packed::from_lanes(ys);
    let fast = a.max(&b, &all_caps());
    let slow = a.max(&b, &no_caps());
    assert_eq!(lanes_of(&fast), lanes_of(&slow));
    assert_eq!(lanes_of(&fast)[0], 2);
    assert_eq!(lanes_of(&fast)[1], 0);
}

#[test]
fn min_u32_scenario() {
    // A 32-bit-unsigned vector with lanes [1, 0] in front, the rest zero,
    // against an all-zero vector except one lane holding the maximum
    // unsigned value: min is zero everywhere.
    let a = Packed::from_lanes(vec![1u32, 0, 0, 0]);
    let b = Packed::from_lanes(vec![0u32, 0, 0, u32::MAX]);
    let fast = a.min(&b, &all_caps());
    let slow = a.min(&b, &no_caps());
    assert_eq!(lanes_of(&fast), vec![0u32, 0, 0, 0]);
    assert_eq!(lanes_of(&slow), vec![0u32, 0, 0, 0]);
}

#[test]
fn eq_self_sets_every_lane() {
    // eq(v, v) yields the all-bits-set mask in every lane, for signed and
    // unsigned element types alike.
    let v = Packed::from_lanes((0u8..16).collect::<Vec<u8>>());
    let m = v.eq(&v, &all_caps());
    assert_eq!(lanes_of(&m), vec![0xffu8; 16]);
    let m = v.eq(&v, &no_caps());
    assert_eq!(lanes_of(&m), vec![0xffu8; 16]);

    let v = Packed::from_lanes(vec![-5i8, 0, 5]);
    let m = v.eq(&v, &no_caps());
    assert_eq!(lanes_of(&m), vec![-1i8, -1, -1]);

    let v = Packed::from_lanes(vec![7u64, 0, u64::MAX]);
    let m = v.eq(&v, &all_caps());
    assert_eq!(lanes_of(&m), vec![u64::MAX; 3]);
}

#[test]
fn eq_builds_masks_per_lane() {
    let a = Packed::from_lanes(vec![0u16, 2, 0, 2, 0, 2, 0, 2]);
    let b = Packed::from_lanes(vec![0u16; 8]);
    let fast = a.eq(&b, &all_caps());
    let slow = a.eq(&b, &no_caps());
    let want = vec![0xffffu16, 0, 0xffff, 0, 0xffff, 0, 0xffff, 0];
    assert_eq!(lanes_of(&fast), want);
    assert_eq!(lanes_of(&slow), want);

    let a = Packed::from_lanes(vec![-1i32, 4, 0, 9]);
    let b = Packed::from_lanes(vec![-1i32, 5, 1, 9]);
    let fast = a.eq(&b, &all_caps());
    let slow = a.eq(&b, &no_caps());
    assert_eq!(lanes_of(&fast), vec![-1i32, 0, 0, -1]);
    assert_eq!(lanes_of(&slow), vec![-1i32, 0, 0, -1]);
}

#[test]
fn min_max_commute_and_idempotent() {
    let a = Packed::from_lanes(vec![3u16, 9, 1, 7, 5, 0, 2, 8]);
    let b = Packed::from_lanes(vec![4u16, 2, 6, 7, 1, 9, 0, 3]);
    for caps in [all_caps(), no_caps()] {
        assert_eq!(lanes_of(&a.min(&b, &caps)), lanes_of(&b.min(&a, &caps)));
        assert_eq!(lanes_of(&a.max(&b, &caps)), lanes_of(&b.max(&a, &caps)));
        assert_eq!(lanes_of(&a.min(&a, &caps)), lanes_of(&a));
        assert_eq!(lanes_of(&a.max(&a, &caps)), lanes_of(&a));
    }
}

#[test]
fn signed_ordering_is_twos_complement() {
    // A lane holding -1 is less than a lane holding 2.
    let a = Packed::from_lanes(vec![-1i8; 16]);
    let b = Packed::from_lanes(vec![2i8; 16]);
    for caps in [all_caps(), no_caps()] {
        assert_eq!(lanes_of(&a.min(&b, &caps)), vec![-1i8; 16]);
        assert_eq!(lanes_of(&a.max(&b, &caps)), vec![2i8; 16]);
    }
}

#[test]
fn unsigned_ordering_treats_all_bits_set_as_greatest() {
    // A lane holding the maximum unsigned bit pattern is greater than a
    // lane holding 2 — never mistaken for a signed -1.
    let a = Packed::from_lanes(vec![0xffu8; 16]);
    let b = Packed::from_lanes(vec![2u8; 16]);
    for caps in [all_caps(), no_caps()] {
        assert_eq!(lanes_of(&a.max(&b, &caps)), vec![0xffu8; 16]);
        assert_eq!(lanes_of(&a.min(&b, &caps)), vec![2u8; 16]);
    }
}

#[test]
fn accelerated_and_fallback_paths_agree() {
    // For every shape with a registered accelerated path and every
    // operation, the two paths agree lane for lane, on operands where the
    // result equals neither input.
    let a8 = Packed::from_lanes((0u8..16).map(|x| x.wrapping_mul(37)).collect::<Vec<u8>>());
    let b8 = Packed::from_lanes((0u8..16).map(|x| 255 - x.wrapping_mul(11)).collect::<Vec<u8>>());
    assert_eq!(lanes_of(&a8.min(&b8, &all_caps())), lanes_of(&a8.min(&b8, &no_caps())));
    assert_eq!(lanes_of(&a8.max(&b8, &all_caps())), lanes_of(&a8.max(&b8, &no_caps())));
    assert_eq!(lanes_of(&a8.eq(&b8, &all_caps())), lanes_of(&a8.eq(&b8, &no_caps())));

    let ai8 = Packed::from_lanes((0i8..16).map(|x| x - 8).collect::<Vec<i8>>());
    let bi8 = Packed::from_lanes((0i8..16).map(|x| 7 - x).collect::<Vec<i8>>());
    assert_eq!(lanes_of(&ai8.min(&bi8, &all_caps())), lanes_of(&ai8.min(&bi8, &no_caps())));
    assert_eq!(lanes_of(&ai8.max(&bi8, &all_caps())), lanes_of(&ai8.max(&bi8, &no_caps())));
    assert_eq!(lanes_of(&ai8.eq(&bi8, &all_caps())), lanes_of(&ai8.eq(&bi8, &no_caps())));

    let a8w = Packed::from_lanes((0u8..32).map(|x| x.wrapping_mul(29)).collect::<Vec<u8>>());
    let b8w = Packed::from_lanes((0u8..32).map(|x| 200 - x.wrapping_mul(5)).collect::<Vec<u8>>());
    assert_eq!(lanes_of(&a8w.min(&b8w, &all_caps())), lanes_of(&a8w.min(&b8w, &no_caps())));
    assert_eq!(lanes_of(&a8w.max(&b8w, &all_caps())), lanes_of(&a8w.max(&b8w, &no_caps())));
    assert_eq!(lanes_of(&a8w.eq(&b8w, &all_caps())), lanes_of(&a8w.eq(&b8w, &no_caps())));

    let a16 = Packed::from_lanes(vec![0u16, 60000, 5, 30000, 9, 1, 700, 44]);
    let b16 = Packed::from_lanes(vec![1u16, 2, 5, 40000, 8, 0, 701, 44]);
    assert_eq!(lanes_of(&a16.min(&b16, &all_caps())), lanes_of(&a16.min(&b16, &no_caps())));
    assert_eq!(lanes_of(&a16.max(&b16, &all_caps())), lanes_of(&a16.max(&b16, &no_caps())));
    assert_eq!(lanes_of(&a16.eq(&b16, &all_caps())), lanes_of(&a16.eq(&b16, &no_caps())));

    let ai16 = Packed::from_lanes(vec![-32768i16, 32767, 0, -1, 5, -5, 100, -100]);
    let bi16 = Packed::from_lanes(vec![32767i16, -32768, -1, 0, -5, 5, -100, 100]);
    assert_eq!(lanes_of(&ai16.min(&bi16, &all_caps())), lanes_of(&ai16.min(&bi16, &no_caps())));
    assert_eq!(lanes_of(&ai16.max(&bi16, &all_caps())), lanes_of(&ai16.max(&bi16, &no_caps())));
    assert_eq!(lanes_of(&ai16.eq(&bi16, &all_caps())), lanes_of(&ai16.eq(&bi16, &no_caps())));

    let a32 = Packed::from_lanes(vec![0u32, u32::MAX, 5, 1 << 31]);
    let b32 = Packed::from_lanes(vec![1u32, 0, 5, (1 << 31) - 1]);
    assert_eq!(lanes_of(&a32.min(&b32, &all_caps())), lanes_of(&a32.min(&b32, &no_caps())));
    assert_eq!(lanes_of(&a32.max(&b32, &all_caps())), lanes_of(&a32.max(&b32, &no_caps())));
    assert_eq!(lanes_of(&a32.eq(&b32, &all_caps())), lanes_of(&a32.eq(&b32, &no_caps())));

    let ai32 = Packed::from_lanes(vec![i32::MIN, i32::MAX, -7, 7]);
    let bi32 = Packed::from_lanes(vec![i32::MAX, i32::MIN, 7, -7]);
    assert_eq!(lanes_of(&ai32.min(&bi32, &all_caps())), lanes_of(&ai32.min(&bi32, &no_caps())));
    assert_eq!(lanes_of(&ai32.max(&bi32, &all_caps())), lanes_of(&ai32.max(&bi32, &no_caps())));
    assert_eq!(lanes_of(&ai32.eq(&bi32, &all_caps())), lanes_of(&ai32.eq(&bi32, &no_caps())));
}

#[test]
fn accelerated_min_is_not_identity() {
    // With every capability present and the accelerated width, the result
    // mixes lanes of both operands, so a path that handed an operand back
    // unchanged would fail.
    let a = Packed::from_lanes(vec![9u8, 0, 9, 0, 9, 0, 9, 0, 9, 0, 9, 0, 9, 0, 9, 0]);
    let b = Packed::from_lanes(vec![5u8; 16]);
    let r = a.min(&b, &all_caps());
    assert_eq!(
        lanes_of(&r),
        vec![5u8, 0, 5, 0, 5, 0, 5, 0, 5, 0, 5, 0, 5, 0, 5, 0]
    );
}

#[test]
fn shape_is_preserved() {
    let a = Packed::from_lanes(vec![1u8, 2, 3, 4, 5]);
    let b = Packed::from_lanes(vec![5u8, 4, 3, 2, 1]);
    for caps in [all_caps(), no_caps()] {
        assert_eq!(a.min(&b, &caps).lane_count(), 5);
        assert_eq!(a.max(&b, &caps).lane_count(), 5);
        assert_eq!(a.eq(&b, &caps).lane_count(), 5);
    }
    let a = Packed::from_lanes(vec![1i64, -2]);
    let b = Packed::from_lanes(vec![-1i64, 2]);
    assert_eq!(a.min(&b, &all_caps()).lane_count(), 2);
    assert_eq!(lanes_of(&a.min(&b, &all_caps())), vec![-1i64, -2]);
}

#[test]
fn fallback_serves_any_lane_count() {
    // A width with no registered accelerated path takes the fallback even
    // with every capability present.
    let a = Packed::from_lanes(vec![3u8, 1, 4, 1, 5, 9, 2]);
    let b = Packed::from_lanes(vec![2u8, 7, 1, 8, 2, 8, 1]);
    let r = a.max(&b, &all_caps());
    assert_eq!(lanes_of(&r), vec![3u8, 7, 4, 8, 5, 9, 2]);
}

#[test]
fn capability_registry_rows() {
    for op in [BinOp::Min, BinOp::Max, BinOp::Eq] {
        assert_eq!(required_capability(op, ElemKind::U8, 16), Some(Capability::Sse2));
        assert_eq!(required_capability(op, ElemKind::U8, 32), Some(Capability::Avx2));
        assert_eq!(required_capability(op, ElemKind::I8, 16), Some(Capability::Sse41));
        assert_eq!(required_capability(op, ElemKind::U16, 8), Some(Capability::Sse41));
        assert_eq!(required_capability(op, ElemKind::I16, 8), Some(Capability::Sse41));
        assert_eq!(required_capability(op, ElemKind::U32, 4), Some(Capability::Sse41));
        assert_eq!(required_capability(op, ElemKind::I32, 4), Some(Capability::Sse41));
        // No accelerated row: other widths, and 64-bit integer shapes.
        assert_eq!(required_capability(op, ElemKind::U8, 4), None);
        assert_eq!(required_capability(op, ElemKind::U32, 16), None);
        assert_eq!(required_capability(op, ElemKind::U64, 2), None);
        assert_eq!(required_capability(op, ElemKind::I64, 2), None);
    }
}

#[test]
fn capability_set_answers() {
    let caps = CapabilitySet {
        sse2: true,
        sse41: false,
        avx2: true,
    };
    assert!(caps.has(Capability::Sse2));
    assert!(!caps.has(Capability::Sse41));
    assert!(caps.has(Capability::Avx2));
    let none = CapabilitySet::portable();
    assert!(!none.has(Capability::Sse2));
    assert!(!none.has(Capability::Sse41));
    assert!(!none.has(Capability::Avx2));
}
