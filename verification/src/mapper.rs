//! From key events to the controller's report.
//!
//! The reporter owns one report that lives as long as the device. For each
//! key event it looks the key up in a fixed table, sets or clears the one
//! button that the key stands for, and has the whole report sent.

use crate::channel::{after_receive, EventQueue};
use crate::report::{idle_report, XinputControlReport};
use vstd::prelude::*;

verus! {

/// The buttons of the controller.
#[derive(Debug, Clone, Copy, PartialEq, Eq, Structural, Hash)]
pub enum Button {
    ThumbClickRight,
    ThumbClickLeft,
    View,
    Menu,
    DpadRight,
    DpadLeft,
    DpadDown,
    DpadUp,
    Y,
    X,
    B,
    A,
    Xbox,
    ShoulderRight,
    ShoulderLeft,
}

impl XinputControlReport {
    /// Whether the report shows `button` as pressed.
    pub open spec fn button(self, button: Button) -> bool {
        match button {
            Button::ThumbClickRight => self.thumb_click_right,
            Button::ThumbClickLeft => self.thumb_click_left,
            Button::View => self.button_view,
            Button::Menu => self.button_menu,
            Button::DpadRight => self.dpad_right,
            Button::DpadLeft => self.dpad_left,
            Button::DpadDown => self.dpad_down,
            Button::DpadUp => self.dpad_up,
            Button::Y => self.button_y,
            Button::X => self.button_x,
            Button::B => self.button_b,
            Button::A => self.button_a,
            Button::Xbox => self.xbox_button,
            Button::ShoulderRight => self.shoulder_right,
            Button::ShoulderLeft => self.shoulder_left,
        }
    }

    /// The report with `button` shown as `pressed` and all else as it is.
    pub open spec fn with_button(self, button: Button, pressed: bool) -> XinputControlReport {
        match button {
            Button::ThumbClickRight => XinputControlReport { thumb_click_right: pressed, ..self },
            Button::ThumbClickLeft => XinputControlReport { thumb_click_left: pressed, ..self },
            Button::View => XinputControlReport { button_view: pressed, ..self },
            Button::Menu => XinputControlReport { button_menu: pressed, ..self },
            Button::DpadRight => XinputControlReport { dpad_right: pressed, ..self },
            Button::DpadLeft => XinputControlReport { dpad_left: pressed, ..self },
            Button::DpadDown => XinputControlReport { dpad_down: pressed, ..self },
            Button::DpadUp => XinputControlReport { dpad_up: pressed, ..self },
            Button::Y => XinputControlReport { button_y: pressed, ..self },
            Button::X => XinputControlReport { button_x: pressed, ..self },
            Button::B => XinputControlReport { button_b: pressed, ..self },
            Button::A => XinputControlReport { button_a: pressed, ..self },
            Button::Xbox => XinputControlReport { xbox_button: pressed, ..self },
            Button::ShoulderRight => XinputControlReport { shoulder_right: pressed, ..self },
            Button::ShoulderLeft => XinputControlReport { shoulder_left: pressed, ..self },
        }
    }

    /// Whether the report shows `button` as pressed.
    pub fn is_pressed(&self, button: Button) -> (pressed: bool)
        ensures
            pressed == self.button(button),
    {
        match button {
            Button::ThumbClickRight => self.thumb_click_right,
            Button::ThumbClickLeft => self.thumb_click_left,
            Button::View => self.button_view,
            Button::Menu => self.button_menu,
            Button::DpadRight => self.dpad_right,
            Button::DpadLeft => self.dpad_left,
            Button::DpadDown => self.dpad_down,
            Button::DpadUp => self.dpad_up,
            Button::Y => self.button_y,
            Button::X => self.button_x,
            Button::B => self.button_b,
            Button::A => self.button_a,
            Button::Xbox => self.xbox_button,
            Button::ShoulderRight => self.shoulder_right,
            Button::ShoulderLeft => self.shoulder_left,
        }
    }

    /// Shows `button` as `pressed` and leaves all else as it is.
    pub fn set_button(&mut self, button: Button, pressed: bool)
        ensures
            *final(self) == old(self).with_button(button, pressed),
    {
        *self = match button {
            Button::ThumbClickRight => XinputControlReport { thumb_click_right: pressed, ..*self },
            Button::ThumbClickLeft => XinputControlReport { thumb_click_left: pressed, ..*self },
            Button::View => XinputControlReport { button_view: pressed, ..*self },
            Button::Menu => XinputControlReport { button_menu: pressed, ..*self },
            Button::DpadRight => XinputControlReport { dpad_right: pressed, ..*self },
            Button::DpadLeft => XinputControlReport { dpad_left: pressed, ..*self },
            Button::DpadDown => XinputControlReport { dpad_down: pressed, ..*self },
            Button::DpadUp => XinputControlReport { dpad_up: pressed, ..*self },
            Button::Y => XinputControlReport { button_y: pressed, ..*self },
            Button::X => XinputControlReport { button_x: pressed, ..*self },
            Button::B => XinputControlReport { button_b: pressed, ..*self },
            Button::A => XinputControlReport { button_a: pressed, ..*self },
            Button::Xbox => XinputControlReport { xbox_button: pressed, ..*self },
            Button::ShoulderRight => XinputControlReport { shoulder_right: pressed, ..*self },
            Button::ShoulderLeft => XinputControlReport { shoulder_left: pressed, ..*self },
        };
    }
}

/// The button that the key at `row`, `column` stands for. The table serves
/// a pad of four rows by three columns; a key outside it stands for nothing.
pub open spec fn key_map(row: int, column: int) -> Option<Button> {
    if column == 0 {
        if row == 0 {
            Some(Button::DpadRight)
        } else if row == 1 {
            Some(Button::DpadUp)
        } else if row == 2 {
            Some(Button::DpadLeft)
        } else if row == 3 {
            Some(Button::DpadDown)
        } else {
            None
        }
    } else if column == 1 {
        if row == 0 {
            Some(Button::B)
        } else if row == 1 {
            Some(Button::Y)
        } else if row == 2 {
            Some(Button::X)
        } else if row == 3 {
            Some(Button::A)
        } else {
            None
        }
    } else if column == 2 {
        if row == 0 {
            Some(Button::View)
        } else if row == 1 {
            Some(Button::Menu)
        } else if row == 2 {
            Some(Button::ShoulderLeft)
        } else if row == 3 {
            Some(Button::ShoulderRight)
        } else {
            None
        }
    } else {
        None
    }
}

/// The report after a key event: the key's button shows `status`; the
/// report is as before when the key stands for no button.
pub open spec fn report_after(
    report: XinputControlReport,
    status: bool,
    key: (usize, usize),
) -> XinputControlReport {
    match key_map(key.0 as int, key.1 as int) {
        Some(button) => report.with_button(button, status),
        None => report,
    }
}

/// The button that the key at `row`, `column` stands for.
pub fn button_at(row: usize, column: usize) -> (button: Option<Button>)
    ensures
        button == key_map(row as int, column as int),
{
    match (row, column) {
        (0, 0) => Some(Button::DpadRight),
        (1, 0) => Some(Button::DpadUp),
        (2, 0) => Some(Button::DpadLeft),
        (3, 0) => Some(Button::DpadDown),
        (0, 1) => Some(Button::B),
        (1, 1) => Some(Button::Y),
        (2, 1) => Some(Button::X),
        (3, 1) => Some(Button::A),
        (0, 2) => Some(Button::View),
        (1, 2) => Some(Button::Menu),
        (2, 2) => Some(Button::ShoulderLeft),
        (3, 2) => Some(Button::ShoulderRight),
        _ => None,
    }
}

/// Turns key events into reports.
pub struct KeyMapper {
    controller: XinputControlReport,
}

impl View for KeyMapper {
    type V = XinputControlReport;

    /// The report as it stands.
    closed spec fn view(&self) -> XinputControlReport {
        self.controller
    }
}

impl KeyMapper {
    /// A mapper whose report shows nothing pressed.
    pub fn new() -> (mapper: Self)
        ensures
            mapper@ == idle_report(),
    {
        KeyMapper { controller: XinputControlReport::new() }
    }

    /// The report as it stands.
    pub fn report(&self) -> (report: &XinputControlReport)
        ensures
            *report == self@,
    {
        &self.controller
    }

    /// Applies one key event and returns the report to send.
    pub fn apply(&mut self, status: bool, key: (usize, usize)) -> (report: XinputControlReport)
        ensures
            final(self)@ == report_after(old(self)@, status, key),
            report == final(self)@,
    {
        match button_at(key.0, key.1) {
            Some(button) => self.controller.set_button(button, status),
            None => {},
        }
        self.controller
    }

    /// Takes the oldest event from the queue, applies it and returns the
    /// report to send. On an empty queue nothing changes and there is
    /// nothing to send: one event gives one report.
    pub fn poll(&mut self, queue: &mut EventQueue) -> (report: Option<XinputControlReport>)
        ensures
            report is Some <==> old(queue)@.len() > 0,
            final(queue)@ == after_receive(old(queue)@),
            report matches Some(r) ==> final(self)@ == r && r == report_after(
                old(self)@,
                old(queue)@[0].0,
                old(queue)@[0].1,
            ),
            report is None ==> final(self)@ == old(self)@,
    {
        match queue.try_receive() {
            Some((status, key)) => Some(self.apply(status, key)),
            None => None,
        }
    }
}

/// Setting a button leaves the triggers and the sticks as they are.
pub proof fn lemma_with_button_keeps_axes(
    report: XinputControlReport,
    button: Button,
    pressed: bool,
)
    ensures
        report.with_button(button, pressed).trigger_left == report.trigger_left,
        report.with_button(button, pressed).trigger_right == report.trigger_right,
        report.with_button(button, pressed).js_left_x == report.js_left_x,
        report.with_button(button, pressed).js_left_y == report.js_left_y,
        report.with_button(button, pressed).js_right_x == report.js_right_x,
        report.with_button(button, pressed).js_right_y == report.js_right_y,
{
}

/// Setting a button shows it as it was set.
pub proof fn lemma_with_button_sets(report: XinputControlReport, button: Button, pressed: bool)
    ensures
        report.with_button(button, pressed).button(button) == pressed,
{
}

/// Setting a button leaves the field of every other button as it is.
proof fn lemma_with_button_fields(report: XinputControlReport, button: Button, pressed: bool)
    ensures
        !(button is ThumbClickRight) ==> report.with_button(button, pressed).thumb_click_right
            == report.thumb_click_right,
        !(button is ThumbClickLeft) ==> report.with_button(button, pressed).thumb_click_left
            == report.thumb_click_left,
        !(button is View) ==> report.with_button(button, pressed).button_view
            == report.button_view,
        !(button is Menu) ==> report.with_button(button, pressed).button_menu
            == report.button_menu,
        !(button is DpadRight) ==> report.with_button(button, pressed).dpad_right
            == report.dpad_right,
        !(button is DpadLeft) ==> report.with_button(button, pressed).dpad_left
            == report.dpad_left,
        !(button is DpadDown) ==> report.with_button(button, pressed).dpad_down
            == report.dpad_down,
        !(button is DpadUp) ==> report.with_button(button, pressed).dpad_up
            == report.dpad_up,
        !(button is Y) ==> report.with_button(button, pressed).button_y
            == report.button_y,
        !(button is X) ==> report.with_button(button, pressed).button_x
            == report.button_x,
        !(button is B) ==> report.with_button(button, pressed).button_b
            == report.button_b,
        !(button is A) ==> report.with_button(button, pressed).button_a
            == report.button_a,
        !(button is Xbox) ==> report.with_button(button, pressed).xbox_button
            == report.xbox_button,
        !(button is ShoulderRight) ==> report.with_button(button, pressed).shoulder_right
            == report.shoulder_right,
        !(button is ShoulderLeft) ==> report.with_button(button, pressed).shoulder_left
            == report.shoulder_left,
{
}

/// Setting a button leaves every other button as it is.
pub proof fn lemma_with_button_keeps_others(
    report: XinputControlReport,
    button: Button,
    pressed: bool,
    other: Button,
)
    requires
        other != button,
    ensures
        report.with_button(button, pressed).button(other) == report.button(other),
{
    lemma_with_button_fields(report, button, pressed);
    match other {
        Button::ThumbClickRight => {
            assert(!(button is ThumbClickRight));
        },
        Button::ThumbClickLeft => {
            assert(!(button is ThumbClickLeft));
        },
        Button::View => {
            assert(!(button is View));
        },
        Button::Menu => {
            assert(!(button is Menu));
        },
        Button::DpadRight => {
            assert(!(button is DpadRight));
        },
        Button::DpadLeft => {
            assert(!(button is DpadLeft));
        },
        Button::DpadDown => {
            assert(!(button is DpadDown));
        },
        Button::DpadUp => {
            assert(!(button is DpadUp));
        },
        Button::Y => {
            assert(!(button is Y));
        },
        Button::X => {
            assert(!(button is X));
        },
        Button::B => {
            assert(!(button is B));
        },
        Button::A => {
            assert(!(button is A));
        },
        Button::Xbox => {
            assert(!(button is Xbox));
        },
        Button::ShoulderRight => {
            assert(!(button is ShoulderRight));
        },
        Button::ShoulderLeft => {
            assert(!(button is ShoulderLeft));
        },
    }
}

/// A key event changes at most the one button that the key stands for: that
/// button shows the event's status, every other button is as before, and so
/// are the triggers and the sticks.
pub proof fn lemma_event_sets_one_button(
    report: XinputControlReport,
    status: bool,
    key: (usize, usize),
    other: Button,
)
    ensures
        key_map(key.0 as int, key.1 as int) matches Some(button) ==> report_after(
            report,
            status,
            key,
        ).button(button) == status,
        key_map(key.0 as int, key.1 as int) != Some(other) ==> report_after(
            report,
            status,
            key,
        ).button(other) == report.button(other),
        report_after(report, status, key).trigger_left == report.trigger_left,
        report_after(report, status, key).trigger_right == report.trigger_right,
        report_after(report, status, key).js_left_x == report.js_left_x,
        report_after(report, status, key).js_left_y == report.js_left_y,
        report_after(report, status, key).js_right_x == report.js_right_x,
        report_after(report, status, key).js_right_y == report.js_right_y,
{
    match key_map(key.0 as int, key.1 as int) {
        Some(button) => {
            lemma_with_button_sets(report, button, status);
            if other != button {
                lemma_with_button_keeps_others(report, button, status, other);
            }
            lemma_with_button_keeps_axes(report, button, status);
        },
        None => {},
    }
}

/// No two keys of the pad stand for the same button.
pub proof fn lemma_key_map_injective(row: int, column: int, other_row: int, other_column: int)
    requires
        key_map(row, column) is Some,
        key_map(row, column) == key_map(other_row, other_column),
    ensures
        row == other_row,
        column == other_column,
{
}

} // verus!
