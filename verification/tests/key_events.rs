use pad_oxide::channel::{EventQueue, EVENT_QUEUE_CAPACITY};
use pad_oxide::keymatrix::{DiodeDirection, KeyEvent, KeyMatrix, ScanStep};
use pad_oxide::mapper::{button_at, Button, KeyMapper};
use pad_oxide::report::XinputControlReport;

fn pad() -> KeyMatrix<4, 3> {
    KeyMatrix::new(DiodeDirection::ColumnRow).unwrap()
}

#[test]
fn press_hold_release_gives_down_then_up() {
    let mut matrix = pad();
    let mut events = Vec::new();
    for active in [true, true, false] {
        if let Some(event) = matrix.update(2, 1, active) {
            events.push(event);
        }
    }
    assert_eq!(events, vec![KeyEvent::Down(6), KeyEvent::Up(6)]);
}

#[test]
fn steady_key_gives_nothing() {
    let mut matrix = pad();
    assert_eq!(matrix.update(0, 0, false), None);
    assert_eq!(matrix.update(0, 0, false), None);
    assert_eq!(matrix.update(0, 0, true), Some(KeyEvent::Down(0)));
    assert_eq!(matrix.update(0, 0, true), None);
    assert_eq!(matrix.update(0, 0, true), None);
    assert_eq!(matrix.update(0, 0, false), Some(KeyEvent::Up(0)));
    assert_eq!(matrix.update(0, 0, false), None);
}

#[test]
fn keys_do_not_disturb_each_other() {
    let mut matrix = pad();
    assert_eq!(matrix.update(3, 2, true), Some(KeyEvent::Down(11)));
    assert!(matrix.is_pressed(3, 2));
    assert!(!matrix.is_pressed(2, 2));
    assert!(!matrix.is_pressed(3, 1));
    assert_eq!(matrix.update(2, 2, true), Some(KeyEvent::Down(10)));
    assert_eq!(matrix.update(3, 2, true), None);
    assert_eq!(matrix.update(3, 2, false), Some(KeyEvent::Up(11)));
    assert!(matrix.is_pressed(2, 2));
}

#[test]
fn key_index_counts_down_the_columns() {
    let matrix = pad();
    assert_eq!(matrix.index_of(0, 0), Some(0));
    assert_eq!(matrix.index_of(3, 0), Some(3));
    assert_eq!(matrix.index_of(0, 1), Some(4));
    assert_eq!(matrix.index_of(1, 2), Some(9));
    assert_eq!(matrix.index_of(3, 2), Some(11));
    assert_eq!(matrix.index_of(4, 0), None);
    assert_eq!(matrix.index_of(0, 3), None);
}

#[test]
fn cell_of_undoes_index_of() {
    let matrix = pad();
    for row in 0..4 {
        for column in 0..3 {
            let index = matrix.index_of(row, column).unwrap();
            assert_eq!(index as usize, column * 4 + row);
            assert_eq!(matrix.cell_of(index), Some((row, column)));
        }
    }
    assert_eq!(matrix.cell_of(12), None);
    assert_eq!(matrix.cell_of(255), None);
}

#[test]
fn matrix_of_more_than_256_keys_is_refused() {
    assert!(KeyMatrix::<16, 16>::new(DiodeDirection::RowColumn).is_some());
    assert!(KeyMatrix::<17, 16>::new(DiodeDirection::RowColumn).is_none());
    assert!(KeyMatrix::<257, 1>::new(DiodeDirection::RowColumn).is_none());
    assert!(KeyMatrix::<0, 3>::new(DiodeDirection::RowColumn).is_some());
    let matrix = KeyMatrix::<16, 16>::new(DiodeDirection::RowColumn).unwrap();
    assert_eq!(matrix.index_of(15, 15), Some(255));
    assert_eq!(matrix.cell_of(255), Some((15, 15)));
    let empty = KeyMatrix::<0, 3>::new(DiodeDirection::RowColumn).unwrap();
    assert_eq!(empty.cell_of(0), None);
}

#[test]
fn matrix_keeps_its_diode_direction() {
    assert_eq!(pad().diode_direction(), DiodeDirection::ColumnRow);
    let other = KeyMatrix::<2, 2>::new(DiodeDirection::RowColumn).unwrap();
    assert_eq!(other.diode_direction(), DiodeDirection::RowColumn);
}

#[test]
fn key_event_accessors() {
    assert!(KeyEvent::Down(3).is_down());
    assert!(!KeyEvent::Up(3).is_down());
    assert_eq!(KeyEvent::Down(3).index(), 3);
    assert_eq!(KeyEvent::Up(200).index(), 200);
}

#[test]
fn queue_is_first_in_first_out() {
    let mut queue = EventQueue::new();
    assert!(queue.is_empty());
    assert_eq!(queue.try_receive(), None);
    assert_eq!(queue.try_send((true, (0, 1))), Ok(()));
    assert_eq!(queue.try_send((false, (0, 1))), Ok(()));
    assert_eq!(queue.try_send((true, (3, 2))), Ok(()));
    assert_eq!(queue.len(), 3);
    assert!(!queue.is_empty());
    assert_eq!(queue.try_receive(), Some((true, (0, 1))));
    assert_eq!(queue.try_receive(), Some((false, (0, 1))));
    assert_eq!(queue.len(), 1);
    assert_eq!(queue.try_receive(), Some((true, (3, 2))));
    assert_eq!(queue.try_receive(), None);
    assert_eq!(queue.len(), 0);
}

#[test]
fn full_queue_refuses_until_one_slot_is_drained() {
    let mut queue = EventQueue::new();
    assert_eq!(EVENT_QUEUE_CAPACITY, 24);
    for i in 0..24 {
        assert!(!queue.is_full());
        assert_eq!(queue.try_send((i % 2 == 0, (i, i + 1))), Ok(()));
    }
    assert!(queue.is_full());
    assert_eq!(queue.len(), 24);
    assert_eq!(queue.try_send((true, (99, 99))), Err((true, (99, 99))));
    assert_eq!(queue.try_send((true, (99, 99))), Err((true, (99, 99))));
    assert_eq!(queue.len(), 24);
    assert_eq!(queue.try_receive(), Some((true, (0, 1))));
    assert!(!queue.is_full());
    assert_eq!(queue.try_send((true, (99, 99))), Ok(()));
    assert!(queue.is_full());
    for i in 1..24 {
        assert_eq!(queue.try_receive(), Some((i % 2 == 0, (i, i + 1))));
    }
    assert_eq!(queue.try_receive(), Some((true, (99, 99))));
    assert_eq!(queue.try_receive(), None);
}

#[test]
fn queue_wraps_around_many_times() {
    let mut queue = EventQueue::new();
    for i in 0..100usize {
        assert_eq!(queue.try_send((true, (i, 0))), Ok(()));
        assert_eq!(queue.try_send((false, (i, 1))), Ok(()));
        assert_eq!(queue.try_receive(), Some((true, (i, 0))));
        assert_eq!(queue.try_receive(), Some((false, (i, 1))));
    }
    assert!(queue.is_empty());
}

#[test]
fn scan_queues_each_transition() {
    let mut matrix = pad();
    let mut queue = EventQueue::new();
    assert_eq!(matrix.scan_cell(1, 1, false, &mut queue), ScanStep::Unchanged);
    assert_eq!(matrix.scan_cell(1, 1, true, &mut queue), ScanStep::Queued(KeyEvent::Down(5)));
    assert_eq!(matrix.scan_cell(1, 1, true, &mut queue), ScanStep::Unchanged);
    assert_eq!(matrix.scan_cell(1, 1, false, &mut queue), ScanStep::Queued(KeyEvent::Up(5)));
    assert_eq!(queue.try_receive(), Some((true, (1, 1))));
    assert_eq!(queue.try_receive(), Some((false, (1, 1))));
    assert_eq!(queue.try_receive(), None);
}

#[test]
fn scan_blocks_on_a_full_queue_and_loses_nothing() {
    let mut matrix = pad();
    let mut queue = EventQueue::new();
    for i in 0..24 {
        assert_eq!(queue.try_send((true, (i, 7))), Ok(()));
    }
    assert_eq!(matrix.scan_cell(0, 2, true, &mut queue), ScanStep::Blocked(KeyEvent::Down(8)));
    assert!(!matrix.is_pressed(0, 2));
    assert_eq!(queue.len(), 24);
    assert_eq!(matrix.scan_cell(0, 2, true, &mut queue), ScanStep::Blocked(KeyEvent::Down(8)));
    assert_eq!(queue.try_receive(), Some((true, (0, 7))));
    assert_eq!(matrix.scan_cell(0, 2, true, &mut queue), ScanStep::Queued(KeyEvent::Down(8)));
    assert!(matrix.is_pressed(0, 2));
    assert_eq!(queue.len(), 24);
    for i in 1..24 {
        assert_eq!(queue.try_receive(), Some((true, (i, 7))));
    }
    assert_eq!(queue.try_receive(), Some((true, (0, 2))));
}

#[test]
fn key_table_of_the_pad() {
    assert_eq!(button_at(0, 0), Some(Button::DpadRight));
    assert_eq!(button_at(1, 0), Some(Button::DpadUp));
    assert_eq!(button_at(2, 0), Some(Button::DpadLeft));
    assert_eq!(button_at(3, 0), Some(Button::DpadDown));
    assert_eq!(button_at(0, 1), Some(Button::B));
    assert_eq!(button_at(1, 1), Some(Button::Y));
    assert_eq!(button_at(2, 1), Some(Button::X));
    assert_eq!(button_at(3, 1), Some(Button::A));
    assert_eq!(button_at(0, 2), Some(Button::View));
    assert_eq!(button_at(1, 2), Some(Button::Menu));
    assert_eq!(button_at(2, 2), Some(Button::ShoulderLeft));
    assert_eq!(button_at(3, 2), Some(Button::ShoulderRight));
    assert_eq!(button_at(4, 0), None);
    assert_eq!(button_at(0, 3), None);
}

#[test]
fn set_button_changes_one_field() {
    let buttons = [
        Button::ThumbClickRight,
        Button::ThumbClickLeft,
        Button::View,
        Button::Menu,
        Button::DpadRight,
        Button::DpadLeft,
        Button::DpadDown,
        Button::DpadUp,
        Button::Y,
        Button::X,
        Button::B,
        Button::A,
        Button::Xbox,
        Button::ShoulderRight,
        Button::ShoulderLeft,
    ];
    for button in buttons {
        let mut report = XinputControlReport::new();
        report.trigger_left = 9;
        report.js_right_y = -5;
        report.set_button(button, true);
        for other in buttons {
            assert_eq!(report.is_pressed(other), other == button);
        }
        assert_eq!(report.trigger_left, 9);
        assert_eq!(report.js_right_y, -5);
        report.set_button(button, false);
        let mut idle = XinputControlReport::new();
        idle.trigger_left = 9;
        idle.js_right_y = -5;
        assert_eq!(report, idle);
    }
    let mut report = XinputControlReport::new();
    report.set_button(Button::A, true);
    assert!(report.button_a);
    report.set_button(Button::ShoulderLeft, true);
    assert!(report.shoulder_left && report.button_a);
}

#[test]
fn mapper_applies_events_to_its_report() {
    let mut mapper = KeyMapper::new();
    assert_eq!(*mapper.report(), XinputControlReport::new());
    let report = mapper.apply(true, (3, 1));
    assert!(report.button_a);
    let mut expected = XinputControlReport::new();
    expected.button_a = true;
    assert_eq!(report, expected);
    let report = mapper.apply(true, (1, 0));
    expected.dpad_up = true;
    assert_eq!(report, expected);
    let report = mapper.apply(false, (3, 1));
    expected.button_a = false;
    assert_eq!(report, expected);
    assert_eq!(*mapper.report(), expected);
    let report = mapper.apply(true, (7, 7));
    assert_eq!(report, expected);
}

#[test]
fn mapper_takes_one_event_for_one_report() {
    let mut mapper = KeyMapper::new();
    let mut queue = EventQueue::new();
    assert_eq!(mapper.poll(&mut queue), None);
    assert_eq!(queue.try_send((true, (0, 1))), Ok(()));
    assert_eq!(queue.try_send((true, (2, 2))), Ok(()));
    let mut expected = XinputControlReport::new();
    expected.button_b = true;
    assert_eq!(mapper.poll(&mut queue), Some(expected));
    assert_eq!(queue.len(), 1);
    expected.shoulder_left = true;
    assert_eq!(mapper.poll(&mut queue), Some(expected));
    assert_eq!(mapper.poll(&mut queue), None);
    assert_eq!(*mapper.report(), expected);
}

#[test]
fn key_press_travels_from_the_matrix_to_the_wire() {
    let mut matrix = pad();
    let mut queue = EventQueue::new();
    let mut mapper = KeyMapper::new();
    assert_eq!(matrix.scan_cell(1, 1, true, &mut queue), ScanStep::Queued(KeyEvent::Down(5)));
    let report = mapper.poll(&mut queue).unwrap();
    assert_eq!(
        report.encode(),
        [0x00, 0x14, 0x00, 0x80, 0, 0, 0, 0, 0, 0, 0, 0, 0, 0, 0, 0, 0, 0, 0, 0]
    );
}
