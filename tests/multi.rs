use peautkb::multi::Multi;

fn items(m: Multi<u8>) -> Vec<u8> {
    let mut out = Vec::new();
    let mut it = m.into_iter();
    while let Some(x) = it.next() {
        out.push(x);
    }
    out
}

#[test]
fn multi_push_prepends() {
    let mut m = Multi::Zero;
    m.push(1u8);
    m.push(2);
    assert_eq!(items(m), vec![2, 1]);
}

#[test]
fn multi_append_appends() {
    let mut m = Multi::Zero;
    m.append(1u8);
    m.append(2);
    m.append(3);
    assert_eq!(items(m), vec![1, 2, 3]);
}

#[test]
fn multi_push_on_full_empties() {
    let mut m = Multi::Four(1u8, 2, 3, 4);
    m.push(5);
    assert_eq!(m.len(), 0);
    let mut a = Multi::Four(1u8, 2, 3, 4);
    a.append(5);
    assert_eq!(a.len(), 0);
}

#[test]
fn multi_take_in_order() {
    let mut m = Multi::Three(7u8, 8, 9);
    assert_eq!(m.take(), Some(7));
    assert_eq!(m.take(), Some(8));
    assert_eq!(m.take(), Some(9));
    assert_eq!(m.take(), None);
}

#[test]
fn multi_add_concatenates_or_empties() {
    let a = Multi::Two(1u8, 2);
    let b = Multi::Two(3u8, 4);
    assert_eq!(items(a.add(b)), vec![1, 2, 3, 4]);
    let c = Multi::Three(1u8, 2, 3);
    let d = Multi::Two(4u8, 5);
    assert_eq!(items(c.add(d)), Vec::<u8>::new());
    assert_eq!(items(Multi::Zero.add(Multi::One(6u8))), vec![6]);
}
