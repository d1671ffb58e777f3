use ointer::EnumOinters;
use ointer::EnumPayload;
use std::sync::Arc;

type Mixed = EnumOinters<Box<u64>, Arc<u64>, u64, 8, 1, 2, 5>;

#[test]
fn union_dispatch_exclusive() {
    // Exactly the operation registered for the live discriminant runs; the
    // others would panic.
    let m = Mixed::new(5, EnumPayload::Third(77));
    let got = m.map(|_| panic!(), |_| panic!(), |x: &u64| *x);
    assert_eq!(got, 77);

    let b = Mixed::new(1, EnumPayload::First(Box::new(3)));
    let got = b.map(|x: &Box<u64>| **x, |_| panic!(), |_| panic!());
    assert_eq!(got, 3);
}

#[test]
fn union_replace_destroys_once() {
    // Replacing the live payload destroys the previous one exactly once,
    // observable through the shared payload's reference count.
    let a = Arc::new(13u64);
    let mut m = Mixed::new(2, EnumPayload::Second(a.clone()));
    assert_eq!(Arc::strong_count(&a), 2);
    m.set_mut(1, EnumPayload::First(Box::new(4)));
    assert_eq!(Arc::strong_count(&a), 1);
    m.set_mut(5, EnumPayload::Third(6));
    assert_eq!(Arc::strong_count(&a), 1);
}

#[test]
fn union_clone_same_alternative() {
    let a = Arc::new(5u64);
    let m = Mixed::new(2, EnumPayload::Second(a.clone()));
    let c = m.clone();
    assert_eq!(Arc::strong_count(&a), 3);
    let v = c.map(|_| panic!(), |p: &Arc<u64>| **p, |_| panic!());
    assert_eq!(v, 5);
    drop(m);
    drop(c);
    assert_eq!(Arc::strong_count(&a), 1);
}

#[test]
fn union_map_mut_keeps_discriminant() {
    let m = Mixed::new(5, EnumPayload::Third(1));
    let (m, old) = m.map_mut(
        |_: Box<u64>| panic!(),
        |_: Arc<u64>| panic!(),
        |x: u64| (x + 9, x),
    );
    assert_eq!(old, 1);
    let v = m.map(|_| panic!(), |_| panic!(), |x: &u64| *x);
    assert_eq!(v, 10);
}

#[test]
fn union_narrow_discriminant() {
    // A four-bit discriminant region is enough for these codes.
    type Narrow = EnumOinters<u64, u64, u64, 4, 1, 2, 3>;
    let m = Narrow::new(2, EnumPayload::Second(10));
    assert_eq!(m.map(|_| panic!(), |x: &u64| *x, |_| panic!()), 10);
    let t = Narrow::new(3, EnumPayload::Third(4));
    assert_eq!(t.map(|_| panic!(), |_| panic!(), |x: &u64| *x), 4);
}
