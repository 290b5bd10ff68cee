use unique_id::UniqueId;

#[derive(Clone, Eq, PartialEq, Debug)]
struct Test {
    id: UniqueId,
}

fn generate() -> (Test, usize) {
    let t = Test { id: <_>::default() };
    let n = t.id.as_usize();
    (t, n)
}

#[test]
fn test_stack() {
    let (t, n) = generate();
    assert_eq!(t.id.as_usize(), n);
}

#[test]
fn test_clone_eq() {
    let t = Test { id: <_>::default() };
    let t2 = t.clone();
    assert_ne!(t.id, t2.id);
    assert_ne!(t.id.as_usize(), t2.id.as_usize());
    assert_ne!(t, t2);
    assert_eq!(t, t);
    assert_eq!(t.id, t.id);
}

#[test]
fn test_heap_movement() {
    let t = Test { id: <_>::default() };
    let n = t.id.as_usize();
    let mut x = vec![t];
    assert_eq!(x[0].id.as_usize(), n);
    let t_back = x.pop().unwrap();
    assert_eq!(t_back.id.as_usize(), n);
}
