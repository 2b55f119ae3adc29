use multiverse::diff::DiffOp;
use multiverse::reconcile::{room_ids, selected_room_id};
use multiverse::select::SelectableList;

fn filled(n: u32) -> SelectableList<u32> {
    let mut l = SelectableList::new();
    l.apply_batch(vec![DiffOp::Append((0..n).collect())]);
    l
}

#[test]
fn next_wraps_from_last_to_first() {
    let mut l = filled(3);
    l.select(Some(2));
    assert_eq!(l.next(), Some(0));
    assert_eq!(l.selected(), Some(0));
}

#[test]
fn previous_wraps_from_first_to_last() {
    let mut l = filled(3);
    l.select(Some(0));
    assert_eq!(l.previous(), Some(2));
    assert_eq!(l.selected(), Some(2));
}

#[test]
fn single_item_reports_no_change() {
    let mut l = filled(1);
    assert_eq!(l.next(), Some(0));
    assert_eq!(l.next(), None);
    assert_eq!(l.previous(), None);
    assert_eq!(l.selected(), Some(0));
}

#[test]
fn empty_list_clears_selection() {
    let mut l = filled(2);
    l.select(Some(1));
    l.apply_batch(vec![DiffOp::Clear]);
    assert_eq!(l.next(), None);
    assert_eq!(l.selected(), None);
    l.select(Some(0));
    assert_eq!(l.previous(), None);
    assert_eq!(l.selected(), None);
}

#[test]
fn previous_from_past_the_end_goes_to_last() {
    let mut l = filled(4);
    l.select(Some(3));
    l.apply_batch(vec![DiffOp::Truncate { length: 2 }]);
    assert_eq!(l.selected(), Some(3));
    assert_eq!(l.previous(), Some(1));
}

#[test]
fn select_out_of_range_clears() {
    let mut l = filled(2);
    l.select(Some(5));
    assert_eq!(l.selected(), None);
    l.select(Some(1));
    assert_eq!(l.selected(), Some(1));
}

#[test]
fn room_list_appends_then_navigation() {
    let mut rooms: SelectableList<String> = SelectableList::new();
    rooms.apply_batch(vec![DiffOp::Append(vec!["roomA".to_string()])]);
    rooms.apply_batch(vec![DiffOp::Append(vec!["roomB".to_string()])]);
    assert_eq!(room_ids(&rooms), vec!["roomA".to_string(), "roomB".to_string()]);
    assert_eq!(rooms.selected(), None);
    assert_eq!(rooms.next(), Some(0));
    assert_eq!(selected_room_id(&rooms, None), Some("roomA".to_string()));
    assert_eq!(rooms.next(), Some(1));
    assert_eq!(selected_room_id(&rooms, None), Some("roomB".to_string()));
    assert_eq!(rooms.next(), Some(0));
}

#[test]
fn selected_room_id_prefers_explicit_index() {
    let mut rooms: SelectableList<String> = SelectableList::new();
    rooms.apply_batch(vec![DiffOp::Append(vec!["a".to_string(), "b".to_string()])]);
    rooms.select(Some(0));
    assert_eq!(selected_room_id(&rooms, Some(1)), Some("b".to_string()));
    assert_eq!(selected_room_id(&rooms, Some(2)), None);
    assert_eq!(rooms.target(None), Some(&"a".to_string()));
}

#[test]
fn room_batch_returns_snapshot() {
    let mut rooms: SelectableList<String> = SelectableList::new();
    rooms.select(None);
    let ids = multiverse::reconcile::apply_room_batch(
        &mut rooms,
        vec![DiffOp::PushBack("x".to_string()), DiffOp::PushFront("w".to_string())],
    );
    assert_eq!(ids, vec!["w".to_string(), "x".to_string()]);
    assert_eq!(rooms.selected(), None);
}
