use htui::cursor::NestedCursor;
use htui::list::NestedListStateV2;
use htui::node::{NestedListItem, NestedListItemState};

fn create_state() -> NestedListStateV2<String, String> {
    NestedListStateV2::new()
}

fn next_count<S, G>(state: &mut NestedListStateV2<S, G>, count: u8) {
    for _i in 0..count {
        state.next_v2(|_| true);
    }
}

fn prev_count<S, G>(state: &mut NestedListStateV2<S, G>, count: u8) {
    for _i in 0..count {
        state.prev_v2(|_| true);
    }
}

fn create_single(str: &str) -> NestedListItem<String, String> {
    NestedListItem::Single(str.into())
}

fn create_multiple(str: &str, items: Vec<&'static str>) -> NestedListItem<String, String> {
    let children = {
        let mut list = Vec::new();

        for item in items {
            list.push(String::from(item));
        }

        list
    };

    NestedListItem::Group {
        inner: String::from(str),
        items: children,
        collapsed: false,
    }
}

#[test]
fn test_empty_v2() {
    let mut state = create_state();

    next_count(&mut state, 3);

    assert_eq!(state.cursor(), NestedCursor::empty());
}

#[test]
fn test_walk_over_list() {
    let mut state = create_state();

    prev_count(&mut state, 3);
    assert_eq!(state.cursor(), NestedCursor::empty());

    state.insert(create_single("single 1"));
    next_count(&mut state, 1);
    assert_eq!(state.cursor(), NestedCursor::from(0));

    state.insert(create_single("single 2"));
    next_count(&mut state, 1);
    assert_eq!(state.cursor(), NestedCursor::from(1));

    // prev
    prev_count(&mut state, 2);
    assert_eq!(state.cursor(), NestedCursor::from(0));

    // next 2
    next_count(&mut state, 2);

    state.insert(create_multiple(
        "multiple 1",
        ["sub 1", "sub 2", "sub 3"].into(),
    ));

    next_count(&mut state, 1);
    assert_eq!(state.cursor(), NestedCursor::from(2));

    next_count(&mut state, 2);
    assert_eq!(state.cursor(), NestedCursor::from((2, 1)));

    next_count(&mut state, 4);
    assert_eq!(state.cursor(), NestedCursor::from((2, 2)));

    state.insert(create_single("single 3"));
    next_count(&mut state, 1);
    assert_eq!(state.cursor(), NestedCursor::from(3));

    prev_count(&mut state, 1);
    assert_eq!(state.cursor(), NestedCursor::from((2, 2)));

    prev_count(&mut state, 1);
    assert_eq!(state.cursor(), NestedCursor::from((2, 1)));

    prev_count(&mut state, 1);
    assert_eq!(state.cursor(), NestedCursor::from((2, 0)));

    prev_count(&mut state, 1);
    assert_eq!(state.cursor(), NestedCursor::from(2));

    prev_count(&mut state, 1);
    assert_eq!(state.cursor(), NestedCursor::from(1));
}

fn sample() -> NestedListStateV2<String, String> {
    let mut state = create_state();
    state.insert(create_single("a"));
    state.insert(create_multiple("G", vec!["b", "c", "d"]));
    state.insert(create_single("e"));
    state
}

#[test]
fn insert_selects_first_node_only() {
    let mut state = create_state();
    assert_eq!(state.index(), (None, None));
    state.insert(create_single("a"));
    assert_eq!(state.cursor(), NestedCursor::from(0));
    state.insert(create_single("b"));
    assert_eq!(state.cursor(), NestedCursor::from(0));
    state.next_v2(|_| true);
    state.insert(create_single("c"));
    assert_eq!(state.cursor(), NestedCursor::from(1));
    assert_eq!(state.items().len(), 3);
}

#[test]
fn advance_then_retreat_returns_on_every_interior_position() {
    let mut state = sample();
    let order = [
        NestedCursor::from(0),
        NestedCursor::from(1),
        NestedCursor::from((1, 0)),
        NestedCursor::from((1, 1)),
        NestedCursor::from((1, 2)),
        NestedCursor::from(2),
    ];
    for i in 0..order.len() - 1 {
        assert_eq!(state.cursor(), order[i]);
        state.next_v2(|_| true);
        assert_eq!(state.cursor(), order[i + 1]);
        state.prev_v2(|_| true);
        assert_eq!(state.cursor(), order[i]);
        state.next_v2(|_| true);
    }
}

#[test]
fn traversal_stops_at_both_ends() {
    let mut state = sample();
    state.prev_v2(|_| true);
    assert_eq!(state.cursor(), NestedCursor::from(0));
    for _ in 0..10 {
        state.next_v2(|_| true);
    }
    assert_eq!(state.cursor(), NestedCursor::from(2));
    state.next_v2(|_| true);
    assert_eq!(state.cursor(), NestedCursor::from(2));
}

#[test]
fn a_group_that_is_not_entered_is_stepped_over() {
    let mut state = sample();
    state.next_v2(|_| false);
    assert_eq!(state.cursor(), NestedCursor::from(1));
    state.next_v2(|_| false);
    assert_eq!(state.cursor(), NestedCursor::from(2));
    state.prev_v2(|_| false);
    assert_eq!(state.cursor(), NestedCursor::from(1));
    state.prev_v2(|_| true);
    assert_eq!(state.cursor(), NestedCursor::from(0));
}

#[test]
fn remove_top_level_node_keeps_cursor_in_range() {
    let mut state = sample();
    state.next_v2(|_| true);
    state.next_v2(|_| false);
    assert_eq!(state.cursor(), NestedCursor::from(2));
    state.remove();
    assert_eq!(state.items().len(), 2);
    assert_eq!(state.cursor(), NestedCursor::from(1));
    state.remove();
    assert_eq!(state.items().len(), 1);
    assert_eq!(state.cursor(), NestedCursor::from(0));
    state.remove();
    assert_eq!(state.items().len(), 0);
    assert_eq!(state.cursor(), NestedCursor::empty());
    state.remove();
    assert_eq!(state.cursor(), NestedCursor::empty());
}

#[test]
fn remove_child_moves_to_previous_child_or_header() {
    let mut state = sample();
    state.next_v2(|_| true);
    state.next_v2(|_| true);
    state.next_v2(|_| true);
    assert_eq!(state.cursor(), NestedCursor::from((1, 1)));
    state.remove();
    assert_eq!(state.cursor(), NestedCursor::from((1, 0)));
    match &state.items()[1] {
        NestedListItem::Group { items, .. } => assert_eq!(items, &vec![String::from("b"), String::from("d")]),
        NestedListItem::Single(_) => panic!("group expected"),
    }
    state.remove();
    assert_eq!(state.cursor(), NestedCursor::from((1, 0)));
    match &state.items()[1] {
        NestedListItem::Group { items, .. } => assert_eq!(items, &vec![String::from("d")]),
        NestedListItem::Single(_) => panic!("group expected"),
    }
    state.remove();
    assert_eq!(state.cursor(), NestedCursor::from(1));
    assert_eq!(state.items()[1].count_children(), 0);
    assert_eq!(state.items().len(), 3);
}

#[test]
fn removing_first_child_keeps_first_position_while_children_remain() {
    let mut state = sample();
    state.next_v2(|_| true);
    state.next_v2(|_| true);
    assert_eq!(state.cursor(), NestedCursor::from((1, 0)));
    state.remove();
    assert_eq!(state.cursor(), NestedCursor::from((1, 0)));
    match state.current_inner() {
        Some(NestedListItemState::Single(s)) => assert_eq!(s, "c"),
        _ => panic!("child expected"),
    }
}

#[test]
fn child_target_on_a_leaf_is_ignored() {
    let mut state = sample();
    state.remove_by_cursor(NestedCursor::from((0, 0)));
    assert_eq!(state.items().len(), 3);
    assert_eq!(state.cursor(), NestedCursor::from(0));
}

#[test]
fn remove_by_cursor_out_of_range_is_ignored() {
    let mut state = sample();
    state.remove_by_cursor(NestedCursor::from(7));
    state.remove_by_cursor(NestedCursor::from((1, 9)));
    assert_eq!(state.items().len(), 3);
    assert_eq!(state.cursor(), NestedCursor::from(0));
}

#[test]
fn remove_before_the_cursor_shifts_it() {
    let mut state = sample();
    state.next_v2(|_| true);
    state.next_v2(|_| true);
    assert_eq!(state.cursor(), NestedCursor::from((1, 0)));
    state.remove_by_cursor(NestedCursor::from(0));
    assert_eq!(state.cursor(), NestedCursor::from((0, 0)));
    assert_eq!(state.items().len(), 2);
}

#[test]
fn current_inner_distinguishes_leaf_and_header() {
    let mut state = sample();
    match state.current_inner() {
        Some(NestedListItemState::Single(s)) => assert_eq!(s, "a"),
        _ => panic!("leaf expected"),
    }
    state.next_v2(|_| true);
    match state.current_inner() {
        Some(NestedListItemState::Group(g)) => assert_eq!(g, "G"),
        _ => panic!("header expected"),
    }
    state.next_v2(|_| true);
    match state.current_inner() {
        Some(NestedListItemState::Single(s)) => assert_eq!(s, "b"),
        _ => panic!("child expected"),
    }
    assert!(create_state().current_inner().is_none());
}

#[test]
fn clone_at_cursor_appends_copy_of_top_level_node() {
    let mut state = sample();
    state.clone_at_cursor();
    assert_eq!(state.items().len(), 4);
    assert!(matches!(&state.items()[3], NestedListItem::Single(s) if s == "a"));
    state.next_v2(|_| true);
    state.clone_at_cursor();
    assert_eq!(state.items().len(), 5);
    match &state.items()[4] {
        NestedListItem::Group { inner, items, collapsed } => {
            assert_eq!(inner, "G");
            assert_eq!(items.len(), 3);
            assert!(!collapsed);
        }
        NestedListItem::Single(_) => panic!("group expected"),
    }
    state.next_v2(|_| true);
    state.clone_at_cursor();
    assert_eq!(state.items().len(), 5);
    assert_eq!(state.cursor(), NestedCursor::from((1, 0)));
}

#[test]
fn collapsed_group_keeps_children_and_is_skipped() {
    let mut state = sample();
    state.next_v2(|n| !matches!(n, NestedListItem::Group { collapsed: true, .. }));
    state.set_collapsed(true);
    let open = |n: &NestedListItem<String, String>| !matches!(n, NestedListItem::Group { collapsed: true, .. });
    state.next_v2(open);
    assert_eq!(state.cursor(), NestedCursor::from(2));
    state.prev_v2(open);
    assert_eq!(state.cursor(), NestedCursor::from(1));
    assert_eq!(state.items()[1].count_children(), 3);
    state.set_collapsed(false);
    state.next_v2(open);
    assert_eq!(state.cursor(), NestedCursor::from((1, 0)));
}

#[derive(Default)]
struct Dummy {
    #[allow(dead_code)]
    name: &'static str,
}

impl Dummy {
    pub fn new(name: &'static str) -> Self {
        Self { name }
    }
}

fn dummy_item(name: &'static str) -> NestedListItem<(), Dummy> {
    NestedListItem::Group {
        inner: Dummy::new(name),
        items: Vec::new(),
        collapsed: false,
    }
}

#[test]
fn test_empty_list() {
    let nested_list: NestedListStateV2<(), ()> = NestedListStateV2::default();
    assert_eq!(nested_list.cursor(), NestedCursor::empty());
}

#[test]
fn test_2item() {
    let mut nested_list: NestedListStateV2<(), Dummy> = NestedListStateV2::default();

    nested_list.insert(dummy_item("item_1"));
    assert_eq!(nested_list.cursor(), NestedCursor::from(0));
}

#[test]
fn test_next_items() {
    let mut nested_list: NestedListStateV2<(), Dummy> = NestedListStateV2::default();

    nested_list.insert(dummy_item("item_1"));
    assert_eq!(nested_list.cursor(), NestedCursor::from(0));

    nested_list.insert(dummy_item("item_1"));
    assert_eq!(nested_list.cursor(), NestedCursor::from(0));

    nested_list.next_v2(|_| true);
    assert_eq!(nested_list.cursor(), NestedCursor::from(1));

    nested_list.next_v2(|_| true);
    assert_eq!(nested_list.cursor(), NestedCursor::from(1));
}

#[test]
fn test_previous_items() {
    let mut nested_list: NestedListStateV2<(), Dummy> = NestedListStateV2::default();
    nested_list.prev_v2(|_| true);
    assert_eq!(nested_list.cursor(), NestedCursor::empty());

    nested_list.insert(dummy_item("item_1"));
    nested_list.next_v2(|_| true);

    assert_eq!(nested_list.cursor(), NestedCursor::from(0));

    nested_list.insert(dummy_item("item_1"));
    nested_list.next_v2(|_| true);

    assert_eq!(nested_list.cursor(), NestedCursor::from(1));

    nested_list.prev_v2(|_| true);
    assert_eq!(nested_list.cursor(), NestedCursor::from(0));

    nested_list.prev_v2(|_| true);
    assert_eq!(nested_list.cursor(), NestedCursor::from(0));

    nested_list.insert(dummy_item("item_1"));

    assert_eq!(nested_list.cursor(), NestedCursor::from(0));

    nested_list.next_v2(|_| true);
    assert_eq!(nested_list.cursor(), NestedCursor::from(1));

    nested_list.next_v2(|_| true);
    assert_eq!(nested_list.cursor(), NestedCursor::from(2));
}
