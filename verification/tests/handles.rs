use ointer::BBox;
use ointer::EnumOinters;
use ointer::EnumPayload;
use ointer::OBox;
use ointer::Ointer;
use ointer::OinterGet;
use ointer::OinterSet;
use ointer::rc::BRc;
use ointer::rc::ORc;
use ointer::sync::BArc;
use std::sync::Arc;

type MyEnumOinters = EnumOinters<Box<f64>, Arc<i32>, i32, 8, 1, 2, 5>;

#[test]
fn test() {
    {
        // An exclusive handle with one stolen bit.
        let mut o = OBox::new(1);
        assert_eq!(*o.deref(), 1);
        let g: bool = o.get();
        assert_eq!(g, false);
        assert_eq!(*o.deref(), 1);
        *o.deref_mut() = i32::default();
        assert_eq!(*o.deref(), i32::default());
        o.set_bool(true);
        let b = o.get_bool();
        assert_eq!(b, true);
        o.set_mut(false);
        assert_eq!(o, OBox::new(i32::default()));
    }
    {
        // An atomic shared handle with a stolen byte.
        let mut o = BArc::new(1);
        assert_eq!(*o.deref(), 1);
        let g: bool = o.get();
        assert_eq!(g, false);

        // The byte value the small one-byte discriminant stands for.
        o.set_mut(1u8);
        assert_eq!(*o.deref(), 1);
        let got: u8 = o.get();
        assert_eq!(got, 1u8);

        // Modify the bool and the pointer inside the handle in one step.
        let (o, _r) = o.map_mut(|b: bool, p: Arc<i32>| {
            let _ = p;
            (!b, Arc::new(i32::default()), ())
        });
        assert_eq!(*o.downgrade().upgrade().unwrap().deref(), i32::default());
    }
    {
        let mut a = Arc::new(13);

        let e = MyEnumOinters::new(2, EnumPayload::Second(a.clone()));
        assert_eq!(Arc::strong_count(&a), 2);

        // Operate on the live alternative: read it out, replace it, and
        // watch the old payload die exactly once.
        let (e, i) = e.map_mut(
            |_: Box<f64>| panic!(),
            |p: Arc<i32>| {
                let i = *p;
                let np = Arc::new(15);
                drop(p);
                assert_eq!(Arc::strong_count(&a), 1);
                a = np.clone();
                (np, i)
            },
            |_: i32| panic!(),
        );
        assert_eq!(i, 13);
        assert_eq!(e.map(|_| panic!(), |p1| **p1, |_| panic!()), 15);
        assert_eq!(Arc::strong_count(&a), 2);

        // Replace the live alternative with a different one.
        let mut e = e;
        e.set_mut(1, EnumPayload::First(Box::new(2.0)));
        assert_eq!(Arc::strong_count(&a), 1);
        assert_eq!(e.map(|p| **p, |_| panic!(), |_| panic!()), 2.0);
    }
}

#[test]
fn clone_independence() {
    // Cloning copies tag and pointee; afterwards the two handles are
    // fully independent.
    let mut o = BBox::<u64>::new(5);
    o.set_mut(7u8);
    let mut c = o.clone();
    let t: u8 = c.get();
    assert_eq!(t, 7);
    assert_eq!(*c.deref(), 5);
    *c.deref_mut() = 99;
    assert_eq!(*o.deref(), 5);
    assert_eq!(*c.deref(), 99);
    let t0: u8 = o.get();
    assert_eq!(t0, 7);
}

#[test]
fn shared_lifecycle() {
    // Downgrade then upgrade yields a live handle with the same tag and an
    // equal pointee; once every strong handle is gone, upgrade fails.
    let mut s = ORc::<u64>::new(5);
    s.set_bool(true);
    let before = s.strong_count();
    let w = s.downgrade();
    assert_eq!(s.strong_count(), before);
    assert_eq!(s.weak_count(), 1);
    let up = w.upgrade().unwrap();
    assert!(up.get_bool());
    assert_eq!(*up.deref(), 5);
    assert_eq!(s.strong_count(), 2);
    drop(up);
    drop(s);
    assert!(w.upgrade().is_none());
    let w2 = w.clone();
    assert!(w2.upgrade().is_none());
}

#[test]
fn shared_clone_shares_allocation() {
    let s = BRc::<u64>::new(8);
    let c = s.clone();
    assert_eq!(s.strong_count(), 2);
    assert_eq!(c.strong_count(), 2);
    assert_eq!(*c.deref(), 8);
}

#[test]
fn adopt_pointer() {
    let o = OBox::<u64>::from_pointer(Box::new(9));
    assert_eq!(*o.deref(), 9);
    assert_eq!(o.get_bool(), false);
    let r = ORc::<u64>::from_pointer(std::rc::Rc::new(4));
    assert_eq!(*r.deref(), 4);
}

#[test]
fn map_reads_pair() {
    let mut o = BBox::<u64>::new(10);
    o.set_mut(2u8);
    let v = o.map(|t: u8, p: &u64| (t as u64) + *p);
    assert_eq!(v, 12);
}

#[test]
fn exclusive_scenario() {
    // One stolen bit over an exclusive handle to the integer one.
    let mut o = OBox::<u64>::new(1);
    assert_eq!(o.get_bool(), false);
    assert_eq!(*o.deref(), 1);
    o.set_bool(true);
    assert_eq!(*o.deref(), 1);
    *o.deref_mut() = 0;
    assert_eq!(o.get_bool(), true);
    assert_eq!(*o.deref(), 0);
    drop(o);
}

#[test]
fn atomic_shared_scenario() {
    // A stolen byte over an atomic shared handle to the integer one: a
    // one-byte value survives the round trip through the tag, a composite
    // update touches tag and pointee at once, and both survive
    // downgrade/upgrade.
    let mut s = BArc::<u64>::new(1);
    s.set_mut(3u8);
    let g: u8 = s.get();
    assert_eq!(g, 3);
    assert_eq!(*s.deref(), 1);
    let (s, _u) = s.map_mut(|t: u8, p: Arc<u64>| (t + 1, Arc::new(*p + 41), ()));
    let g2: u8 = s.get();
    assert_eq!(g2, 4);
    let w = s.downgrade();
    let up = w.upgrade().unwrap();
    let g3: u8 = up.get();
    assert_eq!(g3, 4);
    assert_eq!(*up.deref(), 42);
}
