use htui::collections::{CollectionItem, CollectionState, Collections, RequestItem};
use htui::cursor::NestedCursor;
use htui::element::{EffectCommand, ElementType};
use htui::sidebar::{Collection, CollectionRequest, CollectionsState};

fn request(name: &str, method: &str, url: &str) -> RequestItem {
    RequestItem::new(name.to_string(), method.to_string(), url.to_string())
}

fn sample_state() -> CollectionState {
    let mut state = CollectionState::default();
    state.add_item(
        CollectionItem::new("users".to_string()),
        vec![
            request("list", "GET", "http://api/users"),
            request("create", "POST", "http://api/users"),
        ],
    );
    state.add_item(CollectionItem::new("empty".to_string()), vec![]);
    state
}

#[test]
fn collection_state_walks_and_reports_effects() {
    let mut state = sample_state();
    assert_eq!(state.cursor(), NestedCursor::from(0));
    match state.current_effect() {
        EffectCommand::SetRequest { method, url } => {
            assert_eq!(method, "GET");
            assert_eq!(url, "http://localhost:3000");
        }
        EffectCommand::Nothing => panic!("effect expected"),
    }
    state.next();
    state.next();
    assert_eq!(state.cursor(), NestedCursor::from((0, 1)));
    match state.current_effect() {
        EffectCommand::SetRequest { method, url } => {
            assert_eq!(method, "POST");
            assert_eq!(url, "http://api/users");
        }
        EffectCommand::Nothing => panic!("effect expected"),
    }
    state.next();
    assert_eq!(state.cursor(), NestedCursor::from(1));
    state.prev();
    assert_eq!(state.cursor(), NestedCursor::from((0, 1)));
}

#[test]
fn collection_state_without_selection_has_no_effect() {
    let state = CollectionState::default();
    assert!(matches!(state.current_effect(), EffectCommand::Nothing));
}

#[test]
fn closed_collection_is_stepped_over_and_reopened() {
    let mut state = sample_state();
    state.close_group();
    state.next();
    assert_eq!(state.cursor(), NestedCursor::from(1));
    state.prev();
    assert_eq!(state.cursor(), NestedCursor::from(0));
    state.open_group();
    state.next();
    assert_eq!(state.cursor(), NestedCursor::from((0, 0)));
    // a child is selected: closing does nothing
    state.close_group();
    state.prev();
    assert_eq!(state.cursor(), NestedCursor::from(0));
}

#[test]
fn clone_item_copies_selected_collection() {
    let mut state = sample_state();
    state.clone_item();
    assert_eq!(state.list.items().len(), 3);
    assert_eq!(state.list.items()[2].count_children(), 2);
    state.next();
    state.clone_item();
    assert_eq!(state.list.items().len(), 3);
}

#[test]
fn collections_element_starts_without_popup() {
    assert!(!Collections::new().show_popup);
}

#[test]
fn element_focus_cycles() {
    let mut e = ElementType::Collections;
    assert_eq!(e.next(), ElementType::MethodSelector);
    assert_eq!(ElementType::MethodSelector.next(), ElementType::UrlInput);
    assert_eq!(ElementType::UrlInput.next(), ElementType::Collections);
    assert_eq!(e.prev(), ElementType::UrlInput);
    assert_eq!(e, ElementType::Collections);
    let mut m = ElementType::MethodSelector;
    assert_eq!(m.prev(), ElementType::Collections);
    let mut u = ElementType::UrlInput;
    assert_eq!(u.prev(), ElementType::MethodSelector);
}

#[test]
fn simple_sidebar_walks_requests() {
    let mut state = CollectionsState::default();
    state.next();
    assert!(state.get_current_collection().is_none());

    let mut first = Collection::with_name("coll_1".to_string());
    first.append("req_1".to_string());
    state.append_collection(first);
    state.append_collection(Collection::with_name("coll_2".to_string()));
    assert!(state.get_current_collection().is_some());
    assert!(state.get_current_request().is_none());

    state.next();
    assert!(state.get_current_request().is_some());
    state.next();
    assert!(state.get_current_request().is_none());
    state.append_request(CollectionRequest::new("req_2".to_string()));
    assert!(state.get_current_request().is_some());
    state.next();
    state.next();
    state.remove();
    assert!(state.get_current_request().is_some());
}

#[test]
fn simple_sidebar_with_collections_selects_first() {
    let state = CollectionsState::with_collections(vec![Collection::default()]);
    assert!(state.get_current_collection().is_some());
    let empty = CollectionsState::with_collections(vec![]);
    assert!(empty.get_current_collection().is_none());
}

#[test]
fn request_without_selected_collection_is_ignored() {
    let mut state = CollectionsState::default();
    state.append_request(CollectionRequest::new("lost".to_string()));
    assert!(state.get_current_request().is_none());
    assert!(state.get_current_collection().is_none());
}
