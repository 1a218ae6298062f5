use clack::events::Event;
use clack::events::EventType;
use clack::events::NoteEvent;
use clack::list::EventList;

fn note_at(time: u32, key: i32) -> Event<'static> {
    Event::new(
        time,
        EventType::NoteOn(NoteEvent {
            port_index: 0,
            channel: 0,
            key,
            note_id: -1,
            velocity_bits: 0,
        }),
    )
}

#[test]
fn insertion_keeps_timestamp_order() {
    let mut list = EventList::new();
    list.insert(note_at(30, 1));
    list.insert(note_at(10, 2));
    list.insert(note_at(20, 3));
    assert_eq!(list.len(), 3);
    assert_eq!(list.get(0).time(), 10);
    assert_eq!(list.get(1).time(), 20);
    assert_eq!(list.get(2).time(), 30);
}

#[test]
fn insert_reports_the_position_taken() {
    let mut list = EventList::new();
    assert_eq!(list.insert(note_at(30, 1)), 0);
    assert_eq!(list.insert(note_at(10, 2)), 0);
    assert_eq!(list.insert(note_at(20, 3)), 1);
    assert_eq!(list.insert(note_at(40, 4)), 3);
}

#[test]
fn equal_timestamps_keep_their_insertion_order() {
    let mut list = EventList::new();
    list.insert(note_at(5, 1));
    list.insert(note_at(5, 2));
    list.insert(note_at(5, 3));
    for (position, key) in [(0usize, 1i32), (1, 2), (2, 3)] {
        match list.get(position).event() {
            Some(EventType::NoteOn(decoded)) => assert_eq!(decoded.key, key),
            _ => panic!("expected a note-on variant"),
        }
    }
}

#[test]
fn a_late_equal_timestamp_goes_behind_the_earlier_ones() {
    let mut list = EventList::new();
    list.insert(note_at(1, 1));
    list.insert(note_at(5, 2));
    list.insert(note_at(9, 3));
    // Equal to the middle timestamp: lands right behind it.
    assert_eq!(list.insert(note_at(5, 4)), 2);
    match list.get(2).event() {
        Some(EventType::NoteOn(decoded)) => assert_eq!(decoded.key, 4),
        _ => panic!("expected a note-on variant"),
    }
}

#[test]
fn an_empty_list_has_no_events() {
    let list = EventList::new();
    assert_eq!(list.len(), 0);
}
