use matrix_goose::session::{recent_start, RoomMap, SessionState, RECENT_WINDOW};

fn room(name: &str) -> String {
    name.to_string()
}

#[test]
fn new_session_is_empty() {
    let state: SessionState<u32> = SessionState::new();
    assert_eq!(state.room_id(), None);
    assert_eq!(state.message_count(&room("!a:h")), 0);
    assert_eq!(state.latest_message(&room("!a:h")), None);
    assert_eq!(state.recent_message(&room("!a:h"), 0), None);
    assert_eq!(state.pick_recent_message(&room("!a:h")), None);
}

#[test]
fn messages_are_buffered_by_room_in_arrival_order() {
    let mut state: SessionState<&str> = SessionState::new();
    state.on_room_message(&room("!a:h"), "a1");
    state.on_room_message(&room("!b:h"), "b1");
    state.on_room_message(&room("!a:h"), "a2");
    state.on_room_message(&room("!a:h"), "a3");
    state.on_room_message(&room("!b:h"), "b2");
    assert_eq!(state.message_count(&room("!a:h")), 3);
    assert_eq!(state.message_count(&room("!b:h")), 2);
    assert_eq!(state.message_count(&room("!c:h")), 0);
    assert_eq!(state.recent_message(&room("!a:h"), 0), Some(&"a1"));
    assert_eq!(state.recent_message(&room("!a:h"), 1), Some(&"a2"));
    assert_eq!(state.recent_message(&room("!a:h"), 2), Some(&"a3"));
    assert_eq!(state.recent_message(&room("!a:h"), 3), None);
    assert_eq!(state.latest_message(&room("!a:h")), Some(&"a3"));
    assert_eq!(state.latest_message(&room("!b:h")), Some(&"b2"));
    assert_eq!(state.latest_message(&room("!c:h")), None);
    assert_eq!(state.room_id(), None);
}

#[test]
fn first_page_has_no_token() {
    let mut state: SessionState<u32> = SessionState::new();
    assert_eq!(state.begin_page(&room("!a:h")), None);
    assert_eq!(state.room_id(), Some(&room("!a:h")));
}

#[test]
fn page_tokens_carry_over_by_room() {
    let mut state: SessionState<u32> = SessionState::new();
    assert_eq!(state.begin_page(&room("!a:h")), None);
    state.end_page(room("!a:h"), Some("t1".to_string()));
    assert_eq!(state.begin_page(&room("!b:h")), None);
    assert_eq!(state.room_id(), Some(&room("!b:h")));
    state.end_page(room("!b:h"), Some("u1".to_string()));
    assert_eq!(state.begin_page(&room("!a:h")), Some("t1".to_string()));
    state.end_page(room("!a:h"), Some("t2".to_string()));
    assert_eq!(state.begin_page(&room("!a:h")), Some("t2".to_string()));
    assert_eq!(state.begin_page(&room("!b:h")), Some("u1".to_string()));
}

#[test]
fn page_without_end_keeps_the_token() {
    let mut state: SessionState<u32> = SessionState::new();
    state.end_page(room("!a:h"), None);
    assert_eq!(state.begin_page(&room("!a:h")), None);
    state.end_page(room("!a:h"), Some("t1".to_string()));
    state.end_page(room("!a:h"), None);
    assert_eq!(state.begin_page(&room("!a:h")), Some("t1".to_string()));
    assert_eq!(state.room_id(), Some(&room("!a:h")));
}

#[test]
fn pages_and_messages_do_not_touch_each_other() {
    let mut state: SessionState<u32> = SessionState::new();
    state.on_room_message(&room("!a:h"), 1);
    state.end_page(room("!a:h"), Some("t1".to_string()));
    state.on_room_message(&room("!a:h"), 2);
    assert_eq!(state.begin_page(&room("!a:h")), Some("t1".to_string()));
    assert_eq!(state.message_count(&room("!a:h")), 2);
    assert_eq!(state.latest_message(&room("!a:h")), Some(&2));
}

#[test]
fn recent_window_is_the_last_eleven() {
    assert_eq!(RECENT_WINDOW, 11);
    assert_eq!(recent_start(0), 0);
    assert_eq!(recent_start(1), 0);
    assert_eq!(recent_start(10), 0);
    assert_eq!(recent_start(11), 0);
    assert_eq!(recent_start(12), 1);
    assert_eq!(recent_start(100), 89);
    assert_eq!(recent_start(usize::MAX), usize::MAX - 11);
}

#[test]
fn recent_message_counts_from_the_window_start() {
    let mut state: SessionState<usize> = SessionState::new();
    for i in 0..30 {
        state.on_room_message(&room("!a:h"), i);
    }
    assert_eq!(state.recent_message(&room("!a:h"), 0), Some(&19));
    assert_eq!(state.recent_message(&room("!a:h"), 10), Some(&29));
    assert_eq!(state.recent_message(&room("!a:h"), 11), None);
    assert_eq!(state.recent_message(&room("!a:h"), usize::MAX), None);
}

#[test]
fn picked_message_is_a_recent_one() {
    let mut state: SessionState<usize> = SessionState::new();
    for i in 0..30 {
        state.on_room_message(&room("!a:h"), i);
    }
    state.on_room_message(&room("!b:h"), 1000);
    let mut seen = [false; 30];
    for _ in 0..2_000 {
        let picked = *state.pick_recent_message(&room("!a:h")).unwrap();
        assert!(picked >= 19 && picked < 30);
        seen[picked] = true;
    }
    assert!(seen[19..].iter().all(|s| *s));
    assert_eq!(state.pick_recent_message(&room("!b:h")), Some(&1000));
    assert_eq!(state.pick_recent_message(&room("!c:h")), None);
}

#[test]
fn room_map_keeps_one_value_for_each_room() {
    let mut map: RoomMap<u32> = RoomMap::new();
    assert_eq!(map.get(&room("a")), None);
    map.insert(room("a"), 1);
    map.insert(room("b"), 2);
    assert_eq!(map.get(&room("a")), Some(&1));
    assert_eq!(map.get(&room("b")), Some(&2));
    map.insert(room("a"), 3);
    assert_eq!(map.get(&room("a")), Some(&3));
    assert_eq!(map.get(&room("b")), Some(&2));
    assert_eq!(map.get(&room("")), None);
    map.insert(room(""), 4);
    assert_eq!(map.get(&room("")), Some(&4));
}

#[test]
fn room_map_appends_in_order() {
    let mut map: RoomMap<Vec<u32>> = RoomMap::new();
    map.append(&room("a"), 1);
    map.append(&room("b"), 10);
    map.append(&room("a"), 2);
    assert_eq!(map.get(&room("a")), Some(&vec![1, 2]));
    assert_eq!(map.get(&room("b")), Some(&vec![10]));
    assert_eq!(map.get(&room("c")), None);
}
