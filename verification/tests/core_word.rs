use ointer::Ointer;
use ointer::OinterGet;
use ointer::OinterSet;
use ointer::TagWord;

#[test]
fn roundtrip_all_small_values() {
    // Every value representable in 4 bits survives a set/get round trip,
    // and the address region never moves.
    let mut w = TagWord::<4>::new(0x0000_1234_5678_9abc_u64);
    let mut v: u64 = 0;
    while v < 16 {
        w.set_usize(v);
        assert_eq!(w.get_usize(), v);
        assert_eq!(w.get_ptr_as_usize(), 0x0000_1234_5678_9abc_u64);
        v += 1;
    }
}

#[test]
fn signed_roundtrip() {
    let mut w = TagWord::<8>::new(0);
    w.set_isize(-1);
    assert_eq!(w.get_usize(), 255);
    assert_eq!(w.get_isize(), -1);
    w.set_isize(-128);
    assert_eq!(w.get_isize(), -128);
    w.set_isize(127);
    assert_eq!(w.get_isize(), 127);
    w.set_isize(0);
    assert_eq!(w.get_isize(), 0);
}

#[test]
fn bool_saturates_tag_region() {
    // A boolean write fills the whole tag region, not a single bit.
    let mut w = TagWord::<8>::new(0);
    w.set_bool(true);
    assert_eq!(w.get_usize(), 255);
    assert!(w.get_bool());
    w.set_bool(false);
    assert_eq!(w.get_usize(), 0);
    assert!(!w.get_bool());
}

#[test]
fn fixed_width_values() {
    let mut w16 = TagWord::<16>::new(7);
    w16.set_mut(0xBEEF_u16);
    let g16: u16 = w16.get();
    assert_eq!(g16, 0xBEEF);
    assert_eq!(w16.get_ptr_as_usize(), 7);

    let mut w32 = TagWord::<32>::new(1);
    w32.set_mut(0xDEAD_BEEF_u32);
    let g32: u32 = w32.get();
    assert_eq!(g32, 0xDEAD_BEEF);

    let mut w8 = TagWord::<8>::new(2);
    w8.set_mut(9u8);
    let g8: u8 = w8.get();
    assert_eq!(g8, 9);

    let mut w40 = TagWord::<40>::new(3);
    w40.set_mut(0xAB_CDEF_0123_u64);
    let g40: u64 = w40.get();
    assert_eq!(g40, 0xAB_CDEF_0123);
}

#[test]
fn set_ptr_clears_tag() {
    let mut w = TagWord::<8>::new(0);
    w.set_usize(5);
    let mut p: u64 = 0x00AB_CDEF;
    w.set_ptr(&mut p);
    assert_eq!(w.get_usize(), 0);
    assert_eq!(w.get_ptr_as_usize(), 0x00AB_CDEF);
    assert_eq!(p, 0x00AB_CDEF);
}

#[test]
fn toggle_twice_restores() {
    // With one stolen bit, toggling the boolean tag twice restores both
    // the tag and the stored address.
    let mut w = TagWord::<1>::new(0x7777);
    let before = w.get_bool();
    let addr = w.get_ptr_as_usize();
    let b1 = w.get_bool();
    w.set_bool(!b1);
    assert_eq!(w.get_bool(), !before);
    let b2 = w.get_bool();
    w.set_bool(!b2);
    assert_eq!(w.get_bool(), before);
    assert_eq!(w.get_ptr_as_usize(), addr);
}

#[test]
fn map_exposes_tag_and_addr() {
    let mut w = TagWord::<8>::new(42);
    w.set_usize(7);
    let s = w.map(|t: u8, p: &u64| (t as u64) * 1000 + *p);
    assert_eq!(s, 7042);
}

#[test]
fn map_mut_updates_both_regions() {
    let mut w = TagWord::<8>::new(40);
    let r = w.map_mut(|t: u8, p: u64| (t + 1, p + 2, p));
    assert_eq!(r, 40);
    assert_eq!(w.get_usize(), 1);
    assert_eq!(w.get_ptr_as_usize(), 42);
}

#[test]
fn signed_byte_tag_values() {
    let mut w = TagWord::<8>::new(0);
    w.set_mut(-1i8);
    assert_eq!(w.get_usize(), 255);
    let g: i8 = w.get();
    assert_eq!(g, -1);
    w.set_mut(7i8);
    let g2: i8 = w.get();
    assert_eq!(g2, 7);
}

#[test]
fn widest_tag_region() {
    // Sixty-three stolen bits leave a single address bit.
    let mut w = TagWord::<63>::new(1);
    w.set_usize((1u64 << 63) - 1);
    assert_eq!(w.get_usize(), (1u64 << 63) - 1);
    assert_eq!(w.get_ptr_as_usize(), 1);
    w.set_isize(-1);
    assert_eq!(w.get_isize(), -1);
    assert_eq!(w.get_ptr_as_usize(), 1);
}
