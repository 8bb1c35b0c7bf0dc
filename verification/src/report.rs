//! The controller's input report and its wire format.
//!
//! A report travels to the host as 20 bytes: a two byte header (packet type
//! `0x00`, length `0x14`), twelve bytes of packed state and six bytes of zero
//! padding. Within the packed state the buttons occupy two bytes, most
//! significant bit first, and every stick axis is a little-endian `i16`.

use vstd::prelude::*;

verus! {

/// Number of bytes of packed controller state.
pub const XINPUT_PAYLOAD_LEN: usize = 12;

/// Number of bytes of a control report on the wire.
pub const XINPUT_REPORT_LEN: usize = 20;

/// Packet type of a control report, the first byte on the wire.
pub const XINPUT_REPORT_TYPE: u8 = 0x00;

/// Store the input states of the controller
#[derive(Debug, Clone, Copy, PartialEq, Eq, Structural)]
pub struct XinputControlReport {
    // byte zero
    pub thumb_click_right: bool,
    pub thumb_click_left: bool,
    pub button_view: bool,
    pub button_menu: bool,
    pub dpad_right: bool,
    pub dpad_left: bool,
    pub dpad_down: bool,
    pub dpad_up: bool,
    // byte one
    pub button_y: bool,
    pub button_x: bool,
    pub button_b: bool,
    pub button_a: bool,
    pub xbox_button: bool,
    pub shoulder_right: bool,
    pub shoulder_left: bool,
    // others
    pub trigger_left: u8,
    pub trigger_right: u8,
    pub js_left_x: i16,
    pub js_left_y: i16,
    pub js_right_x: i16,
    pub js_right_y: i16,
}

/// The contribution of one button to its byte: `weight` when pressed.
pub open spec fn flag(set: bool, weight: int) -> int {
    if set {
        weight
    } else {
        0
    }
}

/// Whether the binary digit of value `weight` (a power of two) is set in `byte`.
pub open spec fn digit(byte: u8, weight: int) -> bool {
    (byte as int / weight) % 2 == 1
}

/// The 16 bit two's complement pattern of an axis value, as a number in `0..65536`.
pub open spec fn axis_pattern(v: i16) -> int {
    if v >= 0 {
        v as int
    } else {
        v as int + 65536
    }
}

/// Low byte of an axis value, first on the wire.
pub open spec fn axis_low(v: i16) -> u8 {
    (axis_pattern(v) % 256) as u8
}

/// High byte of an axis value, second on the wire.
pub open spec fn axis_high(v: i16) -> u8 {
    (axis_pattern(v) / 256) as u8
}

/// The axis value whose little-endian bytes are `low`, `high`.
pub open spec fn axis_value(low: u8, high: u8) -> i16 {
    let pattern = high as int * 256 + low as int;
    if pattern < 32768 {
        pattern as i16
    } else {
        (pattern - 65536) as i16
    }
}

/// The report in which nothing is pressed and every axis is at rest.
pub open spec fn idle_report() -> XinputControlReport {
    XinputControlReport {
        thumb_click_right: false,
        thumb_click_left: false,
        button_view: false,
        button_menu: false,
        dpad_right: false,
        dpad_left: false,
        dpad_down: false,
        dpad_up: false,
        button_y: false,
        button_x: false,
        button_b: false,
        button_a: false,
        xbox_button: false,
        shoulder_right: false,
        shoulder_left: false,
        trigger_left: 0,
        trigger_right: 0,
        js_left_x: 0,
        js_left_y: 0,
        js_right_x: 0,
        js_right_y: 0,
    }
}

impl XinputControlReport {
    /// First button byte: the stick clicks, view, menu and the d-pad.
    pub open spec fn buttons_first(self) -> u8 {
        (flag(self.thumb_click_right, 0x80) + flag(self.thumb_click_left, 0x40) + flag(
            self.button_view,
            0x20,
        ) + flag(self.button_menu, 0x10) + flag(self.dpad_right, 0x08) + flag(self.dpad_left, 0x04)
            + flag(self.dpad_down, 0x02) + flag(self.dpad_up, 0x01)) as u8
    }

    /// Second button byte: the face buttons, the guide button and the
    /// shoulders. The digit of weight `0x08` is reserved and always clear.
    pub open spec fn buttons_second(self) -> u8 {
        (flag(self.button_y, 0x80) + flag(self.button_x, 0x40) + flag(self.button_b, 0x20) + flag(
            self.button_a,
            0x10,
        ) + flag(self.xbox_button, 0x04) + flag(self.shoulder_right, 0x02) + flag(
            self.shoulder_left,
            0x01,
        )) as u8
    }

    /// The twelve bytes of packed state.
    pub open spec fn payload(self) -> Seq<u8> {
        seq![
            self.buttons_first(),
            self.buttons_second(),
            self.trigger_left,
            self.trigger_right,
            axis_low(self.js_left_x),
            axis_high(self.js_left_x),
            axis_low(self.js_left_y),
            axis_high(self.js_left_y),
            axis_low(self.js_right_x),
            axis_high(self.js_right_x),
            axis_low(self.js_right_y),
            axis_high(self.js_right_y),
        ]
    }

    /// The twenty bytes of the report on the wire.
    pub open spec fn wire(self) -> Seq<u8> {
        seq![XINPUT_REPORT_TYPE, 20u8] + self.payload() + seq![0u8, 0u8, 0u8, 0u8, 0u8, 0u8]
    }

    /// The report that twelve bytes of packed state stand for. The reserved
    /// digit of the second byte is not read.
    pub open spec fn from_payload(s: Seq<u8>) -> XinputControlReport {
        XinputControlReport {
            thumb_click_right: digit(s[0], 0x80),
            thumb_click_left: digit(s[0], 0x40),
            button_view: digit(s[0], 0x20),
            button_menu: digit(s[0], 0x10),
            dpad_right: digit(s[0], 0x08),
            dpad_left: digit(s[0], 0x04),
            dpad_down: digit(s[0], 0x02),
            dpad_up: digit(s[0], 0x01),
            button_y: digit(s[1], 0x80),
            button_x: digit(s[1], 0x40),
            button_b: digit(s[1], 0x20),
            button_a: digit(s[1], 0x10),
            xbox_button: digit(s[1], 0x04),
            shoulder_right: digit(s[1], 0x02),
            shoulder_left: digit(s[1], 0x01),
            trigger_left: s[2],
            trigger_right: s[3],
            js_left_x: axis_value(s[4], s[5]),
            js_left_y: axis_value(s[6], s[7]),
            js_right_x: axis_value(s[8], s[9]),
            js_right_y: axis_value(s[10], s[11]),
        }
    }

    /// Whether `s` has the length and the header of a control report.
    pub open spec fn is_wire(s: Seq<u8>) -> bool {
        s.len() == 20 && s[0] == XINPUT_REPORT_TYPE && s[1] == 20
    }

    /// The report that wire bytes stand for, if they are a control report.
    /// The padding is not read.
    pub open spec fn from_wire(s: Seq<u8>) -> Option<XinputControlReport> {
        if Self::is_wire(s) {
            Some(Self::from_payload(s.subrange(2, 14)))
        } else {
            None
        }
    }
}

/// `s` with the bytes from `offset` on replaced by `bytes`; the rest is kept.
pub open spec fn overwrite(s: Seq<u8>, offset: int, bytes: Seq<u8>) -> Seq<u8> {
    s.subrange(0, offset) + bytes + s.subrange(offset + bytes.len(), s.len() as int)
}

/// The ability to convert struct to a buffer to send
pub trait AsXinputReport {
    /// The bytes that the value serializes to.
    spec fn report(&self) -> Seq<u8>;

    /// Write serialized report to the given buffer start from given offset
    /// For interface0, the report size should not exceed 32
    ///
    /// Returns the full report length.
    fn to_report(&self, offset: usize, buf: &mut [u8]) -> (len: usize)
        requires
            offset + self.report().len() <= old(buf)@.len(),
        ensures
            len == self.report().len(),
            final(buf)@ == overwrite(old(buf)@, offset as int, self.report()),
    ;
}

/// The bit of a button in its byte: `weight` when the button is pressed.
fn weigh(set: bool, weight: u8) -> (r: u8)
    ensures
        r == flag(set, weight as int),
{
    if set {
        weight
    } else {
        0
    }
}

/// Whether the bit `mask` is set in `byte`.
fn has_digit(byte: u8, mask: u8) -> (r: bool)
    requires
        mask == 0x80 || mask == 0x40 || mask == 0x20 || mask == 0x10 || mask == 0x08 || mask
            == 0x04 || mask == 0x02 || mask == 0x01,
    ensures
        r == digit(byte, mask as int),
{
    assert((byte & mask != 0) == ((byte / mask) % 2 == 1)) by (bit_vector)
        requires
            mask == 0x80 || mask == 0x40 || mask == 0x20 || mask == 0x10 || mask == 0x08 || mask
                == 0x04 || mask == 0x02 || mask == 0x01,
    ;
    byte & mask != 0
}

/// The low and the high byte of an axis value.
fn split_axis(v: i16) -> (r: (u8, u8))
    ensures
        r.0 == axis_low(v),
        r.1 == axis_high(v),
{
    let pattern: u16 = if v >= 0 {
        v as u16
    } else {
        (v as i32 + 65536) as u16
    };
    ((pattern % 256) as u8, (pattern / 256) as u8)
}

/// The axis value with the given low and high byte.
fn join_axis(low: u8, high: u8) -> (v: i16)
    ensures
        v == axis_value(low, high),
{
    let pattern: u16 = high as u16 * 256 + low as u16;
    if pattern < 32768 {
        pattern as i16
    } else {
        (pattern as i32 - 65536) as i16
    }
}

impl XinputControlReport {
    /// A report in which nothing is pressed and every axis is at rest.
    pub fn new() -> (r: Self)
        ensures
            r == idle_report(),
    {
        XinputControlReport {
            thumb_click_right: false,
            thumb_click_left: false,
            button_view: false,
            button_menu: false,
            dpad_right: false,
            dpad_left: false,
            dpad_down: false,
            dpad_up: false,
            button_y: false,
            button_x: false,
            button_b: false,
            button_a: false,
            xbox_button: false,
            shoulder_right: false,
            shoulder_left: false,
            trigger_left: 0,
            trigger_right: 0,
            js_left_x: 0,
            js_left_y: 0,
            js_right_x: 0,
            js_right_y: 0,
        }
    }

    /// The first button byte.
    fn pack_first(&self) -> (b: u8)
        ensures
            b == self.buttons_first(),
    {
        let high: u8 = weigh(self.thumb_click_right, 0x80) + weigh(self.thumb_click_left, 0x40)
            + weigh(self.button_view, 0x20) + weigh(self.button_menu, 0x10);
        let low: u8 = weigh(self.dpad_right, 0x08) + weigh(self.dpad_left, 0x04) + weigh(
            self.dpad_down,
            0x02,
        ) + weigh(self.dpad_up, 0x01);
        high + low
    }

    /// The second button byte.
    fn pack_second(&self) -> (b: u8)
        ensures
            b == self.buttons_second(),
    {
        let high: u8 = weigh(self.button_y, 0x80) + weigh(self.button_x, 0x40) + weigh(
            self.button_b,
            0x20,
        ) + weigh(self.button_a, 0x10);
        let low: u8 = weigh(self.xbox_button, 0x04) + weigh(self.shoulder_right, 0x02) + weigh(
            self.shoulder_left,
            0x01,
        );
        high + low
    }

    /// Packs the state into its twelve bytes.
    pub fn pack(&self) -> (packed: [u8; XINPUT_PAYLOAD_LEN])
        ensures
            packed@ == self.payload(),
    {
        let first = self.pack_first();
        let second = self.pack_second();
        let left_x = split_axis(self.js_left_x);
        let left_y = split_axis(self.js_left_y);
        let right_x = split_axis(self.js_right_x);
        let right_y = split_axis(self.js_right_y);
        let packed: [u8; 12] = [
            first,
            second,
            self.trigger_left,
            self.trigger_right,
            left_x.0,
            left_x.1,
            left_y.0,
            left_y.1,
            right_x.0,
            right_x.1,
            right_y.0,
            right_y.1,
        ];
        assert(packed@ =~= self.payload());
        packed
    }

    /// Reads a report back from its twelve bytes of packed state.
    pub fn unpack(src: &[u8; XINPUT_PAYLOAD_LEN]) -> (r: Self)
        ensures
            r == Self::from_payload(src@),
    {
        XinputControlReport {
            thumb_click_right: has_digit(src[0], 0x80),
            thumb_click_left: has_digit(src[0], 0x40),
            button_view: has_digit(src[0], 0x20),
            button_menu: has_digit(src[0], 0x10),
            dpad_right: has_digit(src[0], 0x08),
            dpad_left: has_digit(src[0], 0x04),
            dpad_down: has_digit(src[0], 0x02),
            dpad_up: has_digit(src[0], 0x01),
            button_y: has_digit(src[1], 0x80),
            button_x: has_digit(src[1], 0x40),
            button_b: has_digit(src[1], 0x20),
            button_a: has_digit(src[1], 0x10),
            xbox_button: has_digit(src[1], 0x04),
            shoulder_right: has_digit(src[1], 0x02),
            shoulder_left: has_digit(src[1], 0x01),
            trigger_left: src[2],
            trigger_right: src[3],
            js_left_x: join_axis(src[4], src[5]),
            js_left_y: join_axis(src[6], src[7]),
            js_right_x: join_axis(src[8], src[9]),
            js_right_y: join_axis(src[10], src[11]),
        }
    }

    /// Serializes the report into the twenty bytes that go on the wire.
    pub fn encode(&self) -> (bytes: [u8; XINPUT_REPORT_LEN])
        ensures
            bytes@ == self.wire(),
            bytes@.len() == 20,
            bytes@[0] == 0x00,
            bytes@[1] == 0x14,
    {
        let p = self.pack();
        let bytes: [u8; 20] = [
            XINPUT_REPORT_TYPE,
            20,
            p[0],
            p[1],
            p[2],
            p[3],
            p[4],
            p[5],
            p[6],
            p[7],
            p[8],
            p[9],
            p[10],
            p[11],
            0,
            0,
            0,
            0,
            0,
            0,
        ];
        assert(bytes@ =~= self.wire());
        bytes
    }

    /// Reads a report back from wire bytes. `None` unless `data` has the
    /// length and the header of a control report.
    pub fn decode(data: &[u8]) -> (r: Option<Self>)
        ensures
            r == Self::from_wire(data@),
    {
        if data.len() != XINPUT_REPORT_LEN || data[0] != XINPUT_REPORT_TYPE || data[1] != 20 {
            return None;
        }
        let packed: [u8; 12] = [
            data[2],
            data[3],
            data[4],
            data[5],
            data[6],
            data[7],
            data[8],
            data[9],
            data[10],
            data[11],
            data[12],
            data[13],
        ];
        assert(packed@ =~= data@.subrange(2, 14));
        Some(Self::unpack(&packed))
    }
}

impl Default for XinputControlReport {
    fn default() -> (r: Self)
        ensures
            r == idle_report(),
    {
        XinputControlReport::new()
    }
}

impl AsXinputReport for XinputControlReport {
    /// The twenty bytes of the report on the wire.
    open spec fn report(&self) -> Seq<u8> {
        self.wire()
    }

    /// Writes the twenty bytes of the report to `buf`, from `offset` on, and
    /// leaves the rest of `buf` as it is.
    fn to_report(&self, offset: usize, buf: &mut [u8]) -> (len: usize) {
        let bytes = self.encode();
        let size = buf.len();
        let mut i: usize = 0;
        while i < 20
            invariant
                i <= 20,
                offset + 20 <= size,
                size == buf@.len(),
                buf@.len() == old(buf)@.len(),
                bytes@ == self.wire(),
                forall|k: int| 0 <= k < offset ==> buf@[k] == old(buf)@[k],
                forall|k: int| offset + 20 <= k < buf@.len() ==> buf@[k] == old(buf)@[k],
                forall|k: int| 0 <= k < i ==> buf@[offset + k] == bytes@[k],
            decreases 20 - i,
        {
            buf[offset + i] = bytes[i];
            i += 1;
        }
        assert(buf@ =~= overwrite(old(buf)@, offset as int, self.wire()));
        XINPUT_REPORT_LEN
    }
}

/// A byte that is a sum of flags, one to each power of two, has exactly the
/// digits whose flags are set.
pub proof fn lemma_digits_of_flags(
    b7: bool,
    b6: bool,
    b5: bool,
    b4: bool,
    b3: bool,
    b2: bool,
    b1: bool,
    b0: bool,
)
    ensures
        ({
            let sum = flag(b7, 0x80) + flag(b6, 0x40) + flag(b5, 0x20) + flag(b4, 0x10) + flag(
                b3,
                0x08,
            ) + flag(b2, 0x04) + flag(b1, 0x02) + flag(b0, 0x01);
            &&& 0 <= sum < 256
            &&& digit(sum as u8, 0x80) == b7
            &&& digit(sum as u8, 0x40) == b6
            &&& digit(sum as u8, 0x20) == b5
            &&& digit(sum as u8, 0x10) == b4
            &&& digit(sum as u8, 0x08) == b3
            &&& digit(sum as u8, 0x04) == b2
            &&& digit(sum as u8, 0x02) == b1
            &&& digit(sum as u8, 0x01) == b0
        }),
{
    let x7 = flag(b7, 1);
    let x6 = flag(b6, 1);
    let x5 = flag(b5, 1);
    let x4 = flag(b4, 1);
    let x3 = flag(b3, 1);
    let x2 = flag(b2, 1);
    let x1 = flag(b1, 1);
    let x0 = flag(b0, 1);
    let sum = 128 * x7 + 64 * x6 + 32 * x5 + 16 * x4 + 8 * x3 + 4 * x2 + 2 * x1 + x0;
    assert(sum == flag(b7, 0x80) + flag(b6, 0x40) + flag(b5, 0x20) + flag(b4, 0x10) + flag(
        b3,
        0x08,
    ) + flag(b2, 0x04) + flag(b1, 0x02) + flag(b0, 0x01));
    assert(sum / 128 == x7);
    assert(sum / 64 == 2 * x7 + x6);
    assert(sum / 32 == 4 * x7 + 2 * x6 + x5);
    assert(sum / 16 == 8 * x7 + 4 * x6 + 2 * x5 + x4);
    assert(sum / 8 == 16 * x7 + 8 * x6 + 4 * x5 + 2 * x4 + x3);
    assert(sum / 4 == 32 * x7 + 16 * x6 + 8 * x5 + 4 * x4 + 2 * x3 + x2);
    assert(sum / 2 == 64 * x7 + 32 * x6 + 16 * x5 + 8 * x4 + 4 * x3 + 2 * x2 + x1);
}

/// Every digit of the first button byte is the button it stands for.
pub proof fn lemma_first_byte_digits(r: XinputControlReport)
    ensures
        digit(r.buttons_first(), 0x80) == r.thumb_click_right,
        digit(r.buttons_first(), 0x40) == r.thumb_click_left,
        digit(r.buttons_first(), 0x20) == r.button_view,
        digit(r.buttons_first(), 0x10) == r.button_menu,
        digit(r.buttons_first(), 0x08) == r.dpad_right,
        digit(r.buttons_first(), 0x04) == r.dpad_left,
        digit(r.buttons_first(), 0x02) == r.dpad_down,
        digit(r.buttons_first(), 0x01) == r.dpad_up,
{
    lemma_digits_of_flags(
        r.thumb_click_right,
        r.thumb_click_left,
        r.button_view,
        r.button_menu,
        r.dpad_right,
        r.dpad_left,
        r.dpad_down,
        r.dpad_up,
    );
}

/// Every digit of the second button byte is the button it stands for, and
/// the reserved digit is clear.
pub proof fn lemma_second_byte_digits(r: XinputControlReport)
    ensures
        digit(r.buttons_second(), 0x80) == r.button_y,
        digit(r.buttons_second(), 0x40) == r.button_x,
        digit(r.buttons_second(), 0x20) == r.button_b,
        digit(r.buttons_second(), 0x10) == r.button_a,
        !digit(r.buttons_second(), 0x08),
        digit(r.buttons_second(), 0x04) == r.xbox_button,
        digit(r.buttons_second(), 0x02) == r.shoulder_right,
        digit(r.buttons_second(), 0x01) == r.shoulder_left,
{
    lemma_digits_of_flags(
        r.button_y,
        r.button_x,
        r.button_b,
        r.button_a,
        false,
        r.xbox_button,
        r.shoulder_right,
        r.shoulder_left,
    );
}

/// Packing a report and reading the packed bytes back gives the report.
pub proof fn lemma_payload_round_trip(r: XinputControlReport)
    ensures
        r.payload().len() == 12,
        XinputControlReport::from_payload(r.payload()) == r,
{
    lemma_first_byte_digits(r);
    lemma_second_byte_digits(r);
    lemma_axis_round_trip(r.js_left_x);
    lemma_axis_round_trip(r.js_left_y);
    lemma_axis_round_trip(r.js_right_x);
    lemma_axis_round_trip(r.js_right_y);
}

/// An axis value is what its two little-endian bytes stand for.
pub proof fn lemma_axis_round_trip(v: i16)
    ensures
        axis_value(axis_low(v), axis_high(v)) == v,
{
}

/// A serialized report has twenty bytes: the header `0x00`, `0x14`, the
/// packed state, and six bytes of zero padding.
pub proof fn lemma_wire_shape(r: XinputControlReport)
    ensures
        r.wire().len() == 20,
        r.wire()[0] == 0x00,
        r.wire()[1] == 0x14,
        r.wire().subrange(2, 14) == r.payload(),
        forall|k: int| 14 <= k < 20 ==> r.wire()[k] == 0,
{
    assert(r.wire().subrange(2, 14) =~= r.payload());
}

/// Decoding the wire bytes of a report gives that report back.
pub proof fn lemma_wire_round_trip(r: XinputControlReport)
    ensures
        XinputControlReport::from_wire(r.wire()) == Some(r),
{
    lemma_wire_shape(r);
    lemma_payload_round_trip(r);
}

} // verus!
