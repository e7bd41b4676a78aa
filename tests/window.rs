use htui::cursor::NestedCursor;
use htui::list::NestedListStateV2;
use htui::node::NestedListItem as Node;
use htui::window::{NestedList, NestedListItem};

fn l1() -> NestedListItem {
    NestedListItem::L1 { height: 1 }
}

fn l2() -> NestedListItem {
    NestedListItem::L2 { height: 1 }
}

#[test]
fn nested_list_ui_page_list() {
    // "empty_item"; "item-2_sub_4" with four children; "item-3_sub_2" with
    // three children; "item-4__empty".
    let rows = vec![l1(), l1(), l2(), l2(), l2(), l2(), l1(), l2(), l2(), l2(), l1()];

    let nested_list = NestedList::new(rows).with_cursor(NestedCursor::from((1, 2)));

    assert_eq!(
        nested_list.visible_list(4),
        (NestedCursor::from((1, 2)), NestedCursor::from((2, 0)))
    );

    let nested_list = nested_list.with_cursor(NestedCursor::from(0));

    assert_eq!(
        nested_list.visible_list(2),
        (NestedCursor::from(0), NestedCursor::from(1))
    );

    let nested_list = nested_list.with_cursor(NestedCursor::from(2));
    assert_eq!(
        nested_list.visible_list(6),
        (NestedCursor::from(2), NestedCursor::from(3))
    );
}

fn group(name: &str, children: &[&str]) -> Node<String, String> {
    Node::Group {
        inner: name.to_string(),
        items: children.iter().map(|c| c.to_string()).collect(),
        collapsed: false,
    }
}

fn scenario_store() -> NestedListStateV2<String, String> {
    let mut state = NestedListStateV2::new();
    state.insert(Node::Single("a".to_string()));
    state.insert(group("G", &["b", "c", "d"]));
    state.insert(Node::Single("e".to_string()));
    state
}

#[test]
fn page_holding_last_child_of_group() {
    // Rows: a, G, b, c | d, e. With four lines the first page ends at "c";
    // "d" opens the second page.
    let mut state = scenario_store();
    for _ in 0..4 {
        state.next_v2(|_| true);
    }
    assert_eq!(state.cursor(), NestedCursor::from((1, 2)));
    assert_eq!(
        state.visible_range(4),
        (NestedCursor::from((1, 2)), NestedCursor::from(2))
    );
    let rows = state.rows();
    assert_eq!(rows.len(), 6);
}

#[test]
fn page_of_header_and_children_exactly_fills_height() {
    let mut state = NestedListStateV2::new();
    state.insert(group("G", &["b", "c", "d"]));
    state.insert(Node::Single("e".to_string()));
    for _ in 0..3 {
        state.next_v2(|_| true);
    }
    assert_eq!(state.cursor(), NestedCursor::from((0, 2)));
    assert_eq!(
        state.visible_range(4),
        (NestedCursor::from(0), NestedCursor::from((0, 2)))
    );
}

#[test]
fn empty_store_gives_empty_range_and_no_moves() {
    let mut state: NestedListStateV2<String, String> = NestedListStateV2::new();
    for h in [0usize, 1, 4, 100] {
        assert_eq!(state.visible_range(h), (NestedCursor::empty(), NestedCursor::empty()));
    }
    state.next_v2(|_| true);
    state.prev_v2(|_| true);
    assert_eq!(state.cursor(), NestedCursor::empty());
    let list = NestedList::new(vec![]).with_cursor(NestedCursor::from(3));
    assert_eq!(list.visible_list(5), (NestedCursor::empty(), NestedCursor::empty()));
}

#[test]
fn zero_height_or_empty_cursor_gives_empty_range() {
    let rows = vec![l1(), l2(), l1()];
    let list = NestedList::new(rows).with_cursor(NestedCursor::from(0));
    assert_eq!(list.visible_list(0), (NestedCursor::empty(), NestedCursor::empty()));
    let list = list.with_cursor(NestedCursor::empty());
    assert_eq!(list.visible_list(3), (NestedCursor::empty(), NestedCursor::empty()));
}

#[test]
fn stale_cursor_gives_empty_range() {
    let rows = vec![l1(), l2(), l1()];
    let list = NestedList::new(rows).with_cursor(NestedCursor::from((0, 5)));
    assert_eq!(list.visible_list(3), (NestedCursor::empty(), NestedCursor::empty()));
    let list = list.with_cursor(NestedCursor::from(9));
    assert_eq!(list.visible_list(3), (NestedCursor::empty(), NestedCursor::empty()));
}

#[test]
fn window_contains_cursor_and_fits_height() {
    let rows = vec![l1(), l1(), l2(), l2(), l2(), l2(), l1(), l2(), l2(), l2(), l1()];
    let positions = [
        NestedCursor::from(0),
        NestedCursor::from(1),
        NestedCursor::from((1, 0)),
        NestedCursor::from((1, 1)),
        NestedCursor::from((1, 2)),
        NestedCursor::from((1, 3)),
        NestedCursor::from(2),
        NestedCursor::from((2, 0)),
        NestedCursor::from((2, 1)),
        NestedCursor::from((2, 2)),
        NestedCursor::from(3),
    ];
    for h in 1..13usize {
        for p in positions.iter() {
            let list = NestedList::new(rows.clone_rows()).with_cursor(*p);
            let (first, last) = list.visible_list(h);
            assert!(first <= *p && *p <= last);
            let count = positions.iter().filter(|q| first <= **q && **q <= last).count();
            assert!(count <= h);
        }
    }
}

trait CloneRows {
    fn clone_rows(&self) -> Vec<NestedListItem>;
}

impl CloneRows for Vec<NestedListItem> {
    fn clone_rows(&self) -> Vec<NestedListItem> {
        self.iter()
            .map(|r| if r.is_l1() { NestedListItem::L1 { height: r.height() } } else { NestedListItem::L2 { height: r.height() } })
            .collect()
    }
}

#[test]
fn taller_rows_open_new_pages() {
    // Heights 2, 3, 1, 2 in a height of 4: pages [0], [1, (1,0)], [2].
    let rows = vec![
        NestedListItem::L1 { height: 2 },
        NestedListItem::L1 { height: 3 },
        NestedListItem::L2 { height: 1 },
        NestedListItem::L1 { height: 2 },
    ];
    let list = NestedList::new(rows).with_cursor(NestedCursor::from((1, 0)));
    assert_eq!(list.visible_list(4), (NestedCursor::from(1), NestedCursor::from((1, 0))));
    let list = list.with_cursor(NestedCursor::from(0));
    assert_eq!(list.visible_list(4), (NestedCursor::from(0), NestedCursor::from(0)));
    let list = list.with_cursor(NestedCursor::from(2));
    assert_eq!(list.visible_list(4), (NestedCursor::from(2), NestedCursor::from(2)));
}

#[test]
fn a_row_taller_than_the_height_gets_a_page_of_its_own() {
    let rows = vec![
        NestedListItem::L1 { height: 1 },
        NestedListItem::L1 { height: 9 },
        NestedListItem::L1 { height: 1 },
    ];
    let list = NestedList::new(rows).with_cursor(NestedCursor::from(1));
    assert_eq!(list.visible_list(3), (NestedCursor::from(1), NestedCursor::from(1)));
}

#[test]
fn collapsed_group_shows_only_its_header() {
    let mut state = scenario_store();
    state.next_v2(|_| true);
    state.set_collapsed(true);
    let rows = state.rows();
    assert_eq!(rows.len(), 3);
    assert!(rows.iter().all(|r| r.is_l1() && r.height() == 1));
    assert_eq!(
        state.visible_range(2),
        (NestedCursor::from(0), NestedCursor::from(1))
    );
}

#[test]
fn slice_in_range_gives_rows_and_selection() {
    let rows = vec![l1(), l1(), l2(), l2(), l1()];
    let list = NestedList::new(rows).with_cursor(NestedCursor::from((1, 1)));
    let range = list.visible_list(3);
    assert_eq!(range, (NestedCursor::from((1, 1)), NestedCursor::from(2)));
    assert_eq!(list.slice_in_range(range), (3, 5, Some(0)));
    let whole = (NestedCursor::from(1), NestedCursor::from((1, 1)));
    assert_eq!(list.slice_in_range(whole), (1, 4, Some(2)));
    assert_eq!(
        list.slice_in_range((NestedCursor::from(0), NestedCursor::from(0))),
        (0, 1, None)
    );
    assert_eq!(
        list.slice_in_range((NestedCursor::from(2), NestedCursor::from(0))),
        (0, 0, None)
    );
    assert_eq!(
        list.slice_in_range((NestedCursor::from(0), NestedCursor::from(8))),
        (0, 0, None)
    );
}
