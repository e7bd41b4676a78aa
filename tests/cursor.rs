use htui::cursor::{Idx, NestedCursor};

#[test]
pub fn default_empty_cursor() {
    assert_eq!(NestedCursor::default(), NestedCursor::empty());

    let inner: (Idx, Idx) = (None, None);
    assert_eq!(NestedCursor::default().inner(), inner);
    assert_eq!(NestedCursor::empty().inner(), inner);
}

#[test]
pub fn cursor_values() {
    let mut cursor_1 = NestedCursor::from(1);
    cursor_1.set_idx(None);
    cursor_1.set_sub_idx(Some(2));

    assert_eq!(cursor_1, NestedCursor::empty());

    let mut cursor_2 = NestedCursor::from(1);
    cursor_2.set_idx(Some(4));
    cursor_2.set_sub_idx(None);

    assert_eq!(cursor_2.idx(), &Some(4));
    assert_eq!(cursor_2.sub_idx(), &None);

    cursor_2.set_sub_idx(Some(2));
    assert_eq!(cursor_2.sub_idx(), &Some(2));

    cursor_2.set_idx(None);
    assert_eq!(cursor_2.inner(), (None, None));
}

#[test]
pub fn compare_cursors() {
    let mut cursor_1 = NestedCursor::default();
    cursor_1.set_idx(Some(1));
    cursor_1.set_sub_idx(Some(2));

    assert_eq!(cursor_1, NestedCursor::from((1, 2)));

    let mut cursor_2 = NestedCursor::empty();
    cursor_2.set_idx(Some(2));
    cursor_2.set_sub_idx(Some(0));

    assert_eq!(cursor_2, NestedCursor::from((2, 0)));
}

#[test]
pub fn ordering_cursors() {
    assert!(NestedCursor::empty() < NestedCursor::from(0));
    assert!(NestedCursor::empty() == NestedCursor::new(None, None));
    assert!(NestedCursor::new(Some(1), None) >= NestedCursor::new(Some(0), None));
    assert!(NestedCursor::new(Some(1), Some(2)) < NestedCursor::new(Some(2), None));
    assert!(NestedCursor::new(Some(1), Some(5)) > NestedCursor::new(Some(1), Some(4)));
    assert!(NestedCursor::new(None, None) == NestedCursor::new(None, Some(3)));
}

#[test]
fn cursor_order_is_total_and_transitive_on_samples() {
    let samples = [
        NestedCursor::empty(),
        NestedCursor::from(0),
        NestedCursor::from((0, 0)),
        NestedCursor::from((0, 3)),
        NestedCursor::from(1),
        NestedCursor::from((1, 0)),
        NestedCursor::from(7),
    ];
    for a in samples.iter() {
        for b in samples.iter() {
            let n = [a < b, a == b, a > b].iter().filter(|x| **x).count();
            assert_eq!(n, 1);
            for c in samples.iter() {
                if a < b && b < c {
                    assert!(a < c);
                }
            }
        }
    }
    for i in 0..samples.len() - 1 {
        assert!(samples[i] < samples[i + 1]);
    }
}

#[test]
fn header_precedes_its_children() {
    assert!(NestedCursor::from(3) < NestedCursor::from((3, 0)));
    assert!(NestedCursor::from((3, 9)) < NestedCursor::from(4));
}

#[test]
fn add_and_reduce_saturate() {
    let mut c = NestedCursor::empty();
    c.add_idx(5);
    assert_eq!(c, NestedCursor::from(0));
    c.add_idx(5);
    assert_eq!(c, NestedCursor::from(5));
    c.set_idx(Some(usize::MAX));
    c.add_idx(1);
    assert_eq!(c, NestedCursor::from(usize::MAX));

    let mut d = NestedCursor::from(2);
    d.add_sub_idx(4);
    assert_eq!(d, NestedCursor::from((2, 0)));
    d.add_sub_idx(4);
    assert_eq!(d, NestedCursor::from((2, 4)));
    d.reduce_sub_idx(1);
    assert_eq!(d, NestedCursor::from((2, 3)));
    d.reduce_sub_idx(4);
    assert_eq!(d, NestedCursor::from(2));

    let mut e = NestedCursor::from((0, 1));
    e.reduce_idx(1);
    assert_eq!(e, NestedCursor::from(0));

    let mut none = NestedCursor::empty();
    none.add_sub_idx(3);
    assert_eq!(none, NestedCursor::empty());
}
