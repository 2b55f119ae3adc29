use multiverse::reconcile::{record_rooms, register_all, RoomUpdate};
use multiverse::registry::Registry;
use multiverse::rooms::{room_line, ExtraRoomInfo, RoomProjections};
use multiverse::text::decimal_string;

fn info(raw: Option<&str>, display: Option<&str>, dm: Option<bool>) -> ExtraRoomInfo {
    ExtraRoomInfo {
        raw_name: raw.map(|s| s.to_string()),
        display_name: display.map(|s| s.to_string()),
        is_dm: dm,
    }
}

#[test]
fn update_overwrites_all_three_fields() {
    let mut store = RoomProjections::new();
    let id = "!a:example.org".to_string();
    store.update(id.clone(), Some("raw".into()), Some("Display".into()), Some(true));
    store.update(id.clone(), None, Some("Other".into()), None);
    let got = store.info(&id).unwrap();
    assert_eq!(got.raw_name, None);
    assert_eq!(got.display_name, Some("Other".to_string()));
    assert_eq!(got.is_dm, None);
    assert_eq!(store.len(), 1);
    assert!(store.info(&"!b:example.org".to_string()).is_none());
}

#[test]
fn record_rooms_updates_every_room() {
    let mut store = RoomProjections::new();
    let updates = vec![
        RoomUpdate { room_id: "r1".into(), raw_name: None, display_name: Some("One".into()), is_dm: Some(false) },
        RoomUpdate { room_id: "r2".into(), raw_name: Some("two".into()), display_name: None, is_dm: None },
        RoomUpdate { room_id: "r1".into(), raw_name: None, display_name: Some("Uno".into()), is_dm: Some(true) },
    ];
    record_rooms(&mut store, updates);
    assert_eq!(store.len(), 2);
    assert_eq!(store.info(&"r1".to_string()).unwrap().display_name, Some("Uno".to_string()));
    assert_eq!(store.info(&"r1".to_string()).unwrap().is_dm, Some(true));
    assert_eq!(store.info(&"r2".to_string()).unwrap().raw_name, Some("two".to_string()));
}

#[test]
fn registry_reports_unknown_rooms_in_order() {
    let mut reg: Registry<u32> = Registry::new();
    reg.insert("b".into(), 1);
    let ids = vec!["a".to_string(), "b".to_string(), "c".to_string()];
    assert_eq!(reg.unknown_keys(&ids), vec!["a".to_string(), "c".to_string()]);
    register_all(&mut reg, vec![("a".to_string(), 2), ("c".to_string(), 3)]);
    assert!(reg.unknown_keys(&ids).is_empty());
    assert_eq!(reg.get(&"c".to_string()), Some(&3));
    assert_eq!(reg.len(), 3);
    assert!(reg.contains_key(&"a".to_string()));
    assert!(!reg.contains_key(&"d".to_string()));
}

#[test]
fn registry_insert_replaces() {
    let mut reg: Registry<u32> = Registry::new();
    reg.insert("k".into(), 1);
    reg.insert("k".into(), 2);
    assert_eq!(reg.len(), 1);
    assert_eq!(reg.get(&"k".to_string()), Some(&2));
}

#[test]
fn room_line_prefers_display_name() {
    let id = "!r:x".to_string();
    let line = room_line(3, &id, &Some(info(Some("raw"), Some("Disp"), Some(false))));
    assert_eq!(line, "#3 Disp (!r:x)");
}

#[test]
fn room_line_falls_back_to_raw_name() {
    let id = "!r:x".to_string();
    let line = room_line(12, &id, &Some(info(Some("raw"), None, Some(true))));
    assert_eq!(line, "#12\u{1f92b} m.room.name:raw (!r:x)");
}

#[test]
fn room_line_without_info_is_the_identifier() {
    let id = "!r:x".to_string();
    assert_eq!(room_line(0, &id, &None), "#0 !r:x");
    assert_eq!(room_line(1, &id, &Some(info(None, None, None))), "#1 !r:x");
}

#[test]
fn decimal_writing() {
    assert_eq!(decimal_string(0), "0");
    assert_eq!(decimal_string(907), "907");
    assert_eq!(decimal_string(u64::MAX), "18446744073709551615");
}

#[test]
fn info_copy_is_equal() {
    let i = info(Some("a"), Some("b"), Some(true));
    let c = i.copy();
    assert_eq!(c.raw_name, i.raw_name);
    assert_eq!(c.display_name, i.display_name);
    assert_eq!(c.is_dm, i.is_dm);
}
