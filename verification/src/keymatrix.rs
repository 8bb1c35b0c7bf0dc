//! Scanning of the key matrix.
//!
//! Every cell of the matrix is sampled once per poll. A cell that was
//! released and is now pressed gives a `Down` event, one that was pressed
//! and is now released an `Up` event, and a cell that reads as before gives
//! nothing. Polling at a low, fixed rate is all the debouncing there is: a
//! contact that bounces for less than one poll period is seen once.

use crate::channel::{after_receive, EventQueue, EVENT_QUEUE_CAPACITY};
use vstd::array::array_fill_for_copy_types;
use vstd::prelude::*;

verus! {

/// Mark diode direction on the key matrix
#[derive(Debug, Clone, Copy, PartialEq, Eq, Structural)]
pub enum DiodeDirection {
    /// Anode connected to row pins and cathode connected to column pins.
    /// Current flow from row pins to column pins.
    RowColumn,
    /// Cathode connected to row pins and anode connected to column pins.
    /// Current flow from column pins to row pins.
    ColumnRow,
}

/// KeyEvent, Up or Down, with index(u8)
#[derive(Debug, Clone, Copy, PartialEq, Eq, Structural)]
pub enum KeyEvent {
    /// Key down event with key index
    Down(u8),
    /// Key up event with key index
    Up(u8),
}

impl KeyEvent {
    /// Whether the key went down.
    pub open spec fn down(self) -> bool {
        self is Down
    }

    /// The index of the key.
    pub open spec fn key(self) -> u8 {
        match self {
            KeyEvent::Down(index) => index,
            KeyEvent::Up(index) => index,
        }
    }

    /// Whether the key went down.
    pub fn is_down(&self) -> (r: bool)
        ensures
            r == self.down(),
    {
        match self {
            KeyEvent::Down(_) => true,
            KeyEvent::Up(_) => false,
        }
    }

    /// The index of the key.
    pub fn index(&self) -> (r: u8)
        ensures
            r == self.key(),
    {
        match self {
            KeyEvent::Down(index) => *index,
            KeyEvent::Up(index) => *index,
        }
    }
}

/// The event that a sample of one key gives: `Down` if the key was released
/// and reads pressed, `Up` if it was pressed and reads released, none if it
/// reads as before.
pub open spec fn transition(was: bool, now: bool, index: u8) -> Option<KeyEvent> {
    if !was && now {
        Some(KeyEvent::Down(index))
    } else if was && !now {
        Some(KeyEvent::Up(index))
    } else {
        None
    }
}

/// The events that a run of samples of one key gives, in order, when the key
/// was last seen as `was`.
pub open spec fn transitions(was: bool, samples: Seq<bool>, index: u8) -> Seq<KeyEvent>
    decreases samples.len(),
{
    if samples.len() == 0 {
        Seq::empty()
    } else {
        let rest = transitions(samples[0], samples.drop_first(), index);
        match transition(was, samples[0], index) {
            Some(event) => seq![event] + rest,
            None => rest,
        }
    }
}

/// What the scanner did with one sample.
#[derive(Debug, Clone, Copy, PartialEq, Eq, Structural)]
pub enum ScanStep {
    /// The key reads as before.
    Unchanged,
    /// The key changed and the event was queued.
    Queued(KeyEvent),
    /// The key changed but the queue is full. Nothing was recorded: the
    /// scanner has to wait for room and then hand in the same sample again.
    Blocked(KeyEvent),
}

/// The state of a matrix of `SIZE_IN` rows by `SIZE_OUT` columns: for each
/// key, whether it was pressed when it was last sampled. A matrix has at
/// most 256 keys, so that the index of each fits in a byte.
pub struct KeyMatrix<const SIZE_IN: usize, const SIZE_OUT: usize> {
    last_results: [[bool; SIZE_OUT]; SIZE_IN],
    diode_direction: DiodeDirection,
}

impl<const SIZE_IN: usize, const SIZE_OUT: usize> KeyMatrix<SIZE_IN, SIZE_OUT> {
    #[verifier::type_invariant]
    spec fn indexable(self) -> bool {
        SIZE_IN * SIZE_OUT <= 256
    }

    /// Whether the key at `row`, `column` was pressed when it was last sampled.
    pub closed spec fn pressed(self, row: int, column: int) -> bool {
        self.last_results@[row]@[column]
    }

    /// How the diodes of the matrix are oriented.
    pub closed spec fn direction(self) -> DiodeDirection {
        self.diode_direction
    }

    /// Whether `row`, `column` names a key of the matrix.
    pub open spec fn has_key(row: int, column: int) -> bool {
        0 <= row < SIZE_IN && 0 <= column < SIZE_OUT
    }

    /// The index of the key at `row`, `column`: keys are counted down the
    /// rows of the first column, then of the second, and so on.
    pub open spec fn key_index(row: int, column: int) -> int {
        column * SIZE_IN + row
    }

    /// Whether two states agree on every key but the one at `row`, `column`.
    pub open spec fn same_but(self, other: Self, row: int, column: int) -> bool {
        &&& self.direction() == other.direction()
        &&& forall|r: int, c: int|
            Self::has_key(r, c) && !(r == row && c == column) ==> self.pressed(r, c)
                == other.pressed(r, c)
    }

    /// A matrix on which no key is pressed. `None` if the matrix would have
    /// more than 256 keys.
    pub fn new(diode_direction: DiodeDirection) -> (matrix: Option<Self>)
        ensures
            matrix is Some <==> SIZE_IN * SIZE_OUT <= 256,
            matrix matches Some(m) ==> m.direction() == diode_direction && forall|r: int, c: int|
                Self::has_key(r, c) ==> !m.pressed(r, c),
    {
        let fits = match SIZE_IN.checked_mul(SIZE_OUT) {
            Some(keys) => keys <= 256,
            None => false,
        };
        if !fits {
            return None;
        }
        let row: [bool; SIZE_OUT] = array_fill_for_copy_types(false);
        Some(KeyMatrix { last_results: array_fill_for_copy_types(row), diode_direction })
    }

    /// How the diodes of the matrix are oriented.
    pub fn diode_direction(&self) -> (direction: DiodeDirection)
        ensures
            direction == self.direction(),
    {
        self.diode_direction
    }

    /// Whether the key at `row`, `column` was pressed when it was last sampled.
    pub fn is_pressed(&self, row: usize, column: usize) -> (r: bool)
        requires
            Self::has_key(row as int, column as int),
        ensures
            r == self.pressed(row as int, column as int),
    {
        self.last_results[row][column]
    }

    /// The index of the key at `row`, `column`, `None` when the matrix has no
    /// such key.
    pub fn index_of(&self, row: usize, column: usize) -> (index: Option<u8>)
        ensures
            index is Some <==> Self::has_key(row as int, column as int),
            index matches Some(i) ==> i == Self::key_index(row as int, column as int),
    {
        if row >= SIZE_IN || column >= SIZE_OUT {
            return None;
        }
        proof {
            use_type_invariant(self);
            lemma_index_bound(SIZE_IN as int, SIZE_OUT as int, row as int, column as int);
        }
        Some((column * SIZE_IN + row) as u8)
    }

    /// The row and column of the key with the given index, `None` when the
    /// matrix has no such key.
    pub fn cell_of(&self, index: u8) -> (cell: Option<(usize, usize)>)
        ensures
            cell is Some <==> (index as int) < SIZE_IN * SIZE_OUT,
            cell matches Some((row, column)) ==> Self::has_key(row as int, column as int)
                && Self::key_index(row as int, column as int) == index,
    {
        if SIZE_IN == 0 {
            assert(SIZE_IN * SIZE_OUT == 0) by (nonlinear_arith)
                requires
                    SIZE_IN == 0,
            ;
            return None;
        }
        let row = index as usize % SIZE_IN;
        let column = index as usize / SIZE_IN;
        proof {
            lemma_cell_bounds(SIZE_IN as int, SIZE_OUT as int, index as int);
        }
        if column < SIZE_OUT {
            Some((row, column))
        } else {
            None
        }
    }

    /// Takes one sample of the key at `row`, `column` (`active` when the key
    /// reads pressed), records it and returns the event that it gives.
    pub fn update(&mut self, row: usize, column: usize, active: bool) -> (event: Option<KeyEvent>)
        requires
            Self::has_key(row as int, column as int),
        ensures
            Self::key_index(row as int, column as int) < 256,
            event == transition(
                old(self).pressed(row as int, column as int),
                active,
                Self::key_index(row as int, column as int) as u8,
            ),
            final(self).pressed(row as int, column as int) == active,
            final(self).same_but(*old(self), row as int, column as int),
    {
        proof {
            use_type_invariant(&*self);
            lemma_index_bound(SIZE_IN as int, SIZE_OUT as int, row as int, column as int);
        }
        let index = (column * SIZE_IN + row) as u8;
        let was = self.last_results[row][column];
        self.last_results[row][column] = active;
        if !was && active {
            Some(KeyEvent::Down(index))
        } else if was && !active {
            Some(KeyEvent::Up(index))
        } else {
            None
        }
    }

    /// Takes one sample of the key at `row`, `column` and, if the key
    /// changed, queues the event. When the queue is full the sample is not
    /// recorded and nothing is queued, dropped or overwritten.
    pub fn scan_cell(
        &mut self,
        row: usize,
        column: usize,
        active: bool,
        queue: &mut EventQueue,
    ) -> (step: ScanStep)
        requires
            Self::has_key(row as int, column as int),
        ensures
            Self::key_index(row as int, column as int) < 256,
            step == scan_step(
                transition(
                    old(self).pressed(row as int, column as int),
                    active,
                    Self::key_index(row as int, column as int) as u8,
                ),
                old(queue)@.len(),
            ),
            step is Blocked ==> *final(self) == *old(self) && final(queue)@ == old(queue)@,
            step is Unchanged ==> *final(self) == *old(self) && final(queue)@ == old(queue)@,
            step is Queued ==> final(self).pressed(row as int, column as int) == active
                && final(self).same_but(*old(self), row as int, column as int) && final(queue)@
                == old(queue)@.push((active, (row, column))),
    {
        proof {
            use_type_invariant(&*self);
            lemma_index_bound(SIZE_IN as int, SIZE_OUT as int, row as int, column as int);
        }
        let index = (column * SIZE_IN + row) as u8;
        let was = self.last_results[row][column];
        if was == active {
            return ScanStep::Unchanged;
        }
        let event = if active {
            KeyEvent::Down(index)
        } else {
            KeyEvent::Up(index)
        };
        match queue.try_send((active, (row, column))) {
            Ok(()) => {
                self.last_results[row][column] = active;
                ScanStep::Queued(event)
            },
            Err(_) => ScanStep::Blocked(event),
        }
    }
}

/// What the scanner does with the event of one sample, given the number of
/// events that the queue already holds.
pub open spec fn scan_step(event: Option<KeyEvent>, queued: nat) -> ScanStep {
    match event {
        None => ScanStep::Unchanged,
        Some(e) => if queued < EVENT_QUEUE_CAPACITY {
            ScanStep::Queued(e)
        } else {
            ScanStep::Blocked(e)
        },
    }
}

/// A key of the matrix has an index below the number of keys.
proof fn lemma_index_bound(rows: int, columns: int, row: int, column: int)
    requires
        0 <= row < rows,
        0 <= column < columns,
    ensures
        0 <= column * rows + row < rows * columns,
        0 <= column * rows <= rows * columns,
{
    assert((column + 1) * rows <= columns * rows) by (nonlinear_arith)
        requires
            column + 1 <= columns,
            rows > 0,
    ;
    assert((column + 1) * rows == column * rows + rows) by (nonlinear_arith);
    assert(columns * rows == rows * columns) by (nonlinear_arith);
    assert(0 <= column * rows) by (nonlinear_arith)
        requires
            0 <= column,
            0 < rows,
    ;
}

/// Division of a key index by the number of rows gives its column and row.
proof fn lemma_cell_bounds(rows: int, columns: int, index: int)
    requires
        rows > 0,
        columns >= 0,
        index >= 0,
    ensures
        0 <= index % rows < rows,
        0 <= index / rows,
        (index / rows) * rows + index % rows == index,
        index / rows < columns <==> index < rows * columns,
{
    vstd::arithmetic::div_mod::lemma_fundamental_div_mod(index, rows);
    vstd::arithmetic::div_mod::lemma_div_pos_is_pos(index, rows);
    let q = index / rows;
    let r = index % rows;
    assert(rows * q == q * rows) by (nonlinear_arith);
    if q < columns {
        assert((q + 1) * rows <= columns * rows) by (nonlinear_arith)
            requires
                q + 1 <= columns,
                rows > 0,
        ;
        assert((q + 1) * rows == q * rows + rows) by (nonlinear_arith);
        assert(columns * rows == rows * columns) by (nonlinear_arith);
    } else {
        assert(q * rows >= columns * rows) by (nonlinear_arith)
            requires
                q >= columns,
                rows > 0,
        ;
        assert(columns * rows == rows * columns) by (nonlinear_arith);
    }
}

/// The scanner is held up by a full queue and by nothing else: with the
/// queue full a change of a key is blocked, and once one event was taken
/// from the queue the same change is queued.
pub proof fn lemma_scanner_backpressure(event: KeyEvent, queued: Seq<(bool, (usize, usize))>)
    requires
        queued.len() == EVENT_QUEUE_CAPACITY,
    ensures
        scan_step(Some(event), queued.len()) == ScanStep::Blocked(event),
        scan_step(Some(event), after_receive(queued).len()) == ScanStep::Queued(event),
        forall|fewer: nat| fewer < EVENT_QUEUE_CAPACITY ==> scan_step(Some(event), fewer)
            == ScanStep::Queued(event),
{
}

/// A key that reads as it did at the last poll gives no event, however
/// often it is sampled.
pub proof fn lemma_steady_key_gives_nothing(was: bool, samples: Seq<bool>, index: u8)
    requires
        forall|k: int| 0 <= k < samples.len() ==> samples[k] == was,
    ensures
        transitions(was, samples, index).len() == 0,
    decreases samples.len(),
{
    if samples.len() > 0 {
        lemma_steady_key_gives_nothing(was, samples.drop_first(), index);
    }
}

/// Whatever the samples of one key are, its events alternate: the first is
/// `Down` if the key was released before and `Up` if it was pressed, each
/// later one is the opposite of the one before it, all carry the key's
/// index, and there are no more events than samples.
pub proof fn lemma_events_alternate(was: bool, samples: Seq<bool>, index: u8)
    ensures
        transitions(was, samples, index).len() <= samples.len(),
        forall|k: int|
            0 <= k < transitions(was, samples, index).len() ==> {
                &&& (#[trigger] transitions(was, samples, index)[k]).key() == index
                &&& transitions(was, samples, index)[k].down() == (if k % 2 == 0 {
                    !was
                } else {
                    was
                })
            },
    decreases samples.len(),
{
    if samples.len() > 0 {
        lemma_events_alternate(samples[0], samples.drop_first(), index);
    }
}

/// A key that is pressed at one poll, still pressed at the next and
/// released at the third gives `Down` and then `Up`, and nothing for the
/// poll in between.
pub proof fn lemma_press_hold_release(index: u8)
    ensures
        transitions(false, seq![true, true, false], index) == seq![
            KeyEvent::Down(index),
            KeyEvent::Up(index),
        ],
{
    let samples = seq![true, true, false];
    let held = samples.drop_first();
    let released = held.drop_first();
    assert(released.drop_first().len() == 0);
    assert(transitions(false, released.drop_first(), index) =~= Seq::empty());
    assert(transitions(true, released, index) =~= seq![KeyEvent::Up(index)]);
    assert(transitions(true, held, index) =~= seq![KeyEvent::Up(index)]);
    assert(transitions(false, samples, index) =~= seq![KeyEvent::Down(index), KeyEvent::Up(index)]);
}

} // verus!
