use multiverse::controls::{
    command_for_key, error_status, footer_text, read_receipt_status, Command, DetailsMode, Key,
};
use multiverse::diff::DiffOp;
use multiverse::reconcile::selected_room_id;
use multiverse::select::SelectableList;
use multiverse::session::{PaginationSlot, StatusLine, SubscriptionSlot};

#[test]
fn status_set_twice_leaves_one_pending_expiry() {
    let mut status = StatusLine::new();
    let first = status.set("one".to_string());
    assert_eq!(first.cancel, None);
    let second = status.set("two".to_string());
    assert_eq!(second.cancel, Some(first.expire));
    assert_ne!(second.expire, first.expire);
    assert_eq!(status.pending(), Some(second.expire));
    assert_eq!(status.message(), Some(&"two".to_string()));

    assert!(!status.expire(first.expire));
    assert_eq!(status.message(), Some(&"two".to_string()));
    assert!(status.expire(second.expire));
    assert_eq!(status.message(), None);
    assert!(!status.expire(second.expire));
    assert_eq!(status.pending(), None);
}

#[test]
fn pagination_restart_cancels_previous() {
    let mut pagination = PaginationSlot::new();
    let first = pagination.start();
    assert_eq!(first.cancel, None);
    let second = pagination.start();
    assert_eq!(second.cancel, Some(first.ticket));
    assert!(!pagination.finish(first.ticket));
    assert_eq!(pagination.current(), Some(second.ticket));
    assert!(pagination.finish(second.ticket));
    assert_eq!(pagination.current(), None);
}

#[test]
fn switching_room_keeps_pagination_in_flight() {
    let mut rooms: SelectableList<String> = SelectableList::new();
    rooms.apply_batch(vec![DiffOp::Append(vec!["a".to_string(), "b".to_string()])]);
    let mut subscription = SubscriptionSlot::new();
    let mut pagination = PaginationSlot::new();

    let i = rooms.next().unwrap();
    subscription.switch(selected_room_id(&rooms, Some(i)));
    let started = pagination.start();

    let j = rooms.next().unwrap();
    let plan = subscription.switch(selected_room_id(&rooms, Some(j)));
    assert_eq!(plan.release, Some("a".to_string()));
    assert_eq!(plan.subscribe, Some("b".to_string()));
    assert_eq!(subscription.current(), Some(&"b".to_string()));

    assert_eq!(pagination.current(), Some(started.ticket));
    assert!(pagination.finish(started.ticket));
}

#[test]
fn switching_to_no_room_drops_subscription() {
    let mut subscription = SubscriptionSlot::new();
    subscription.switch(Some("a".to_string()));
    let plan = subscription.switch(None);
    assert_eq!(plan.release, Some("a".to_string()));
    assert_eq!(plan.subscribe, None);
    assert_eq!(subscription.current(), None);
}

#[test]
fn keymap() {
    let m = DetailsMode::TimelineItems;
    assert_eq!(command_for_key(Key::Char('q'), m), Command::Quit);
    assert_eq!(command_for_key(Key::Esc, m), Command::Quit);
    assert_eq!(command_for_key(Key::Down, m), Command::SelectNext);
    assert_eq!(command_for_key(Key::Char('k'), m), Command::SelectPrevious);
    assert_eq!(command_for_key(Key::Char('S'), m), Command::StopSync);
    assert_eq!(command_for_key(Key::Char('Q'), m), Command::ToggleSendQueue);
    assert_eq!(command_for_key(Key::Char('L'), m), Command::ReactToLatest);
    assert_eq!(
        command_for_key(Key::Char('e'), m),
        Command::ShowDetails(DetailsMode::Events)
    );
    assert_eq!(command_for_key(Key::Char('b'), m), Command::BackPaginate);
    assert_eq!(command_for_key(Key::Char('b'), DetailsMode::LinkedChunk), Command::BackPaginate);
    assert_eq!(command_for_key(Key::Char('b'), DetailsMode::Events), Command::Nothing);
    assert_eq!(command_for_key(Key::Char('m'), m), Command::Nothing);
    assert_eq!(command_for_key(Key::Char('m'), DetailsMode::ReadReceipts), Command::MarkAsRead);
    assert_eq!(command_for_key(Key::Other, m), Command::Nothing);
}

#[test]
fn footer_shows_status_or_help() {
    let s = "hello".to_string();
    assert_eq!(footer_text(Some(&s), DetailsMode::Events), "hello");
    assert_eq!(
        footer_text(None, DetailsMode::Events),
        "\nUse j/k to move, s/S to start/stop the sync service, r to show read receipts, t to show the timeline"
    );
    assert!(footer_text(None, DetailsMode::ReadReceipts).contains("m to mark as read"));
}

#[test]
fn status_texts() {
    assert_eq!(read_receipt_status(true), "did send a read receipt!");
    assert_eq!(read_receipt_status(false), "did not send a read receipt!");
    assert_eq!(error_status("error when reacting", "boom"), "error when reacting: boom");
}

#[test]
fn timeline_view_comes_first() {
    assert_eq!(DetailsMode::default(), DetailsMode::TimelineItems);
}
