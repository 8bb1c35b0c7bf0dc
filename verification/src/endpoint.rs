//! The rules by which the two endpoints of the control interface are used.
//!
//! The reader and the writer perform no transfer themselves. The task that
//! owns an endpoint hands the reader what the endpoint returned and is told
//! what that means and what to wait for next; it asks the writer for the
//! bytes to send.
//!
//! Reading: a transfer of no bytes is a keep-alive and is read past; a
//! transfer with bytes is a report for the handler; a packet that overflows
//! the buffer is dropped and reading goes on; when the endpoint is disabled
//! the reader waits until the host enables it again and then reads on.
//! Writing: a report is serialized into a buffer of 32 bytes and sent once;
//! a failed transfer is the caller's to handle and is not retried.

use crate::descriptor::{XINPUT_EP_MAX_PACKET_SIZE, XINPUT_RW_BUFFER_SIZE};
use crate::report::{AsXinputReport, XinputControlReport};
use crate::request::ReportId;
use embassy_usb::driver::EndpointError;
use vstd::prelude::*;

verus! {

/// Why nothing was read.
#[derive(Debug, Clone, Copy, PartialEq, Eq, Structural)]
pub enum ReadError {
    /// The host sent a packet larger than the buffer.
    BufferOverflow,
    /// The endpoint is disabled.
    Disabled,
}

impl From<EndpointError> for ReadError {
    fn from(val: EndpointError) -> (r: ReadError) {
        match val {
            EndpointError::BufferOverflow => ReadError::BufferOverflow,
            EndpointError::Disabled => ReadError::Disabled,
        }
    }
}

impl vstd::std_specs::convert::FromSpecImpl<EndpointError> for ReadError {
    open spec fn obeys_from_spec() -> bool {
        true
    }

    open spec fn from_spec(val: EndpointError) -> ReadError {
        match val {
            EndpointError::BufferOverflow => ReadError::BufferOverflow,
            EndpointError::Disabled => ReadError::Disabled,
        }
    }
}

/// What a task is suspended on.
#[derive(Debug, Clone, Copy, PartialEq, Eq, Structural)]
pub enum Waiting {
    /// The next transfer on the endpoint.
    Transfer,
    /// The host enabling the endpoint.
    Enabled,
}

/// What the reader's task saw happen.
#[derive(Debug, Clone, Copy, PartialEq, Eq)]
pub enum ReaderEvent {
    /// A transfer ended, with the number of bytes received or an error.
    Transfer(Result<usize, EndpointError>),
    /// The host enabled the endpoint.
    Enabled,
}

/// What the reader's task has to do about an event before it waits again.
#[derive(Debug, Clone, Copy, PartialEq, Eq, Structural)]
pub enum ReaderOutput {
    /// Nothing.
    Nothing,
    /// Hand the first `len` bytes of the buffer to the handler as the
    /// output report `id`.
    Report { id: ReportId, len: usize },
    /// Note that the host sent a report larger than the buffer; the report
    /// is lost.
    Overflow,
}

/// What one transfer means to a reader: `None` for a keep-alive, which is
/// read past, the number of bytes of a report, or the reason why there is
/// none.
pub open spec fn read_result(outcome: Result<usize, EndpointError>) -> Option<
    Result<usize, ReadError>,
> {
    match outcome {
        Ok(size) => if size > 0 {
            Some(Ok(size))
        } else {
            None
        },
        Err(EndpointError::BufferOverflow) => Some(Err(ReadError::BufferOverflow)),
        Err(EndpointError::Disabled) => Some(Err(ReadError::Disabled)),
    }
}

/// The number under which a report is handed on: its first byte where
/// reports carry their number, else 0.
pub open spec fn report_number(use_report_ids: bool, buf: Seq<u8>) -> u8 {
    if use_report_ids {
        buf[0]
    } else {
        0
    }
}

/// What the reader waits for after an event.
pub open spec fn waiting_after(waiting: Waiting, event: ReaderEvent) -> Waiting {
    match event {
        ReaderEvent::Enabled => Waiting::Transfer,
        ReaderEvent::Transfer(outcome) => match read_result(outcome) {
            Some(Err(ReadError::Disabled)) => Waiting::Enabled,
            Some(_) => Waiting::Transfer,
            None => waiting,
        },
    }
}

/// What is to be done about an event.
pub open spec fn output_of(use_report_ids: bool, event: ReaderEvent, buf: Seq<u8>) -> ReaderOutput {
    match event {
        ReaderEvent::Enabled => ReaderOutput::Nothing,
        ReaderEvent::Transfer(outcome) => match read_result(outcome) {
            Some(Ok(len)) => ReaderOutput::Report {
                id: ReportId::Out(report_number(use_report_ids, buf)),
                len,
            },
            Some(Err(ReadError::BufferOverflow)) => ReaderOutput::Overflow,
            Some(Err(ReadError::Disabled)) => ReaderOutput::Nothing,
            None => ReaderOutput::Nothing,
        },
    }
}

/// The reading side of the control interface.
pub struct XinputReader {
    max_packet_size: usize,
    waiting: Waiting,
}

impl XinputReader {
    /// The largest packet that the endpoint delivers.
    pub closed spec fn max_packet(self) -> usize {
        self.max_packet_size
    }

    /// What the reader's task is suspended on.
    pub closed spec fn awaits(self) -> Waiting {
        self.waiting
    }

    /// Whether a transfer outcome is one that the endpoint can give: it
    /// holds no more bytes than the largest packet.
    pub open spec fn admits(self, outcome: Result<usize, EndpointError>) -> bool {
        outcome matches Ok(size) ==> size <= self.max_packet()
    }

    /// A reader for an endpoint with the given largest packet. It starts by
    /// reading.
    pub fn new(max_packet_size: u16) -> (reader: Self)
        ensures
            reader.max_packet() == max_packet_size,
            reader.awaits() == Waiting::Transfer,
    {
        XinputReader { max_packet_size: max_packet_size as usize, waiting: Waiting::Transfer }
    }

    /// The largest packet that the endpoint delivers. A buffer to read into
    /// has to be at least as long.
    pub fn max_packet_size(&self) -> (size: usize)
        ensures
            size == self.max_packet(),
    {
        self.max_packet_size
    }

    /// What the reader's task has to wait for next.
    pub fn waiting(&self) -> (waiting: Waiting)
        ensures
            waiting == self.awaits(),
    {
        self.waiting
    }

    /// Says what one transfer into a buffer of `buf_len` bytes means:
    /// `None` for a transfer of no bytes, after which the caller reads
    /// again; else the number of bytes read, or the error.
    pub fn read(&self, buf_len: usize, outcome: Result<usize, EndpointError>) -> (r: Option<
        Result<usize, ReadError>,
    >)
        requires
            buf_len >= self.max_packet(),
            self.admits(outcome),
        ensures
            r == read_result(outcome),
            r matches Some(Ok(size)) ==> 0 < size <= buf_len,
    {
        match outcome {
            Ok(size) => {
                if 0 < size {
                    // not empty, what we need
                    Some(Ok(size))
                } else {
                    None
                }
            },
            Err(err) => Some(Err(ReadError::from(err))),
        }
    }

    /// Takes one event of the reader's task and says what is to be done
    /// about it; `waiting` then tells what to wait for. `buf` is the buffer
    /// that the transfer was read into.
    pub fn run(&mut self, use_report_ids: bool, event: ReaderEvent, buf: &[u8]) -> (output:
        ReaderOutput)
        requires
            buf@.len() >= old(self).max_packet(),
            event matches ReaderEvent::Transfer(outcome) ==> old(self).admits(outcome),
        ensures
            output == output_of(use_report_ids, event, buf@),
            final(self).awaits() == waiting_after(old(self).awaits(), event),
            final(self).max_packet() == old(self).max_packet(),
            output matches ReaderOutput::Report { len, .. } ==> 0 < len <= buf@.len(),
    {
        match event {
            ReaderEvent::Enabled => {
                self.waiting = Waiting::Transfer;
                ReaderOutput::Nothing
            },
            ReaderEvent::Transfer(outcome) => match self.read(buf.len(), outcome) {
                Some(Ok(len)) => {
                    let id = if use_report_ids {
                        buf[0]
                    } else {
                        0
                    };
                    self.waiting = Waiting::Transfer;
                    ReaderOutput::Report { id: ReportId::Out(id), len }
                },
                Some(Err(ReadError::BufferOverflow)) => {
                    self.waiting = Waiting::Transfer;
                    ReaderOutput::Overflow
                },
                Some(Err(ReadError::Disabled)) => {
                    self.waiting = Waiting::Enabled;
                    ReaderOutput::Nothing
                },
                None => ReaderOutput::Nothing,
            },
        }
    }
}

/// The writing side of the control interface.
pub struct XinputWriter {
    max_packet_size: usize,
}

impl XinputWriter {
    /// The largest packet that the endpoint takes.
    pub closed spec fn max_packet(self) -> usize {
        self.max_packet_size
    }

    /// A writer for an endpoint with the given largest packet.
    pub fn new(max_packet_size: u16) -> (writer: Self)
        ensures
            writer.max_packet() == max_packet_size,
    {
        XinputWriter { max_packet_size: max_packet_size as usize }
    }

    /// The largest packet that the endpoint takes.
    pub fn max_packet_size(&self) -> (size: usize)
        ensures
            size == self.max_packet(),
    {
        self.max_packet_size
    }

    /// Write controller status by serializing the report structure
    ///
    /// Returns the buffer to send and the number of its bytes that make up
    /// the report; the rest of the buffer is zero.
    pub fn write_control(&self, report: &dyn AsXinputReport) -> (frame: ([u8; 32], usize))
        requires
            report.report().len() <= XINPUT_RW_BUFFER_SIZE,
        ensures
            frame.1 == report.report().len(),
            frame.0@.subrange(0, frame.1 as int) == report.report(),
            forall|k: int| frame.1 <= k < XINPUT_RW_BUFFER_SIZE ==> frame.0@[k] == 0,
    {
        let mut buf: [u8; 32] = [0;32];
        let length = report.to_report(0, &mut buf);
        (buf, length)
    }
}

/// Both sides of the control interface.
pub struct XinputReaderWriter {
    reader: XinputReader,
    writer: XinputWriter,
}

impl XinputReaderWriter {
    /// The reading side.
    pub closed spec fn reader(self) -> XinputReader {
        self.reader
    }

    /// The writing side.
    pub closed spec fn writer(self) -> XinputWriter {
        self.writer
    }

    /// The reader and the writer of the control interface, whose endpoints
    /// carry packets of at most 32 bytes.
    pub fn new() -> (pair: Self)
        ensures
            pair.reader().max_packet() == XINPUT_EP_MAX_PACKET_SIZE,
            pair.reader().awaits() == Waiting::Transfer,
            pair.writer().max_packet() == XINPUT_EP_MAX_PACKET_SIZE,
    {
        XinputReaderWriter {
            reader: XinputReader::new(XINPUT_EP_MAX_PACKET_SIZE),
            writer: XinputWriter::new(XINPUT_EP_MAX_PACKET_SIZE),
        }
    }

    /// Splits into seperate readers/writers for input and output reports.
    pub fn split(self) -> (parts: (XinputReader, XinputWriter))
        ensures
            parts.0 == self.reader(),
            parts.1 == self.writer(),
    {
        (self.reader, self.writer)
    }

    /// Writes an input report with a structure
    ///
    /// See [`XinputWriter::write_control`].
    pub fn write_control(&self, report: &XinputControlReport) -> (frame: ([u8; 32], usize))
        ensures
            frame.1 == 20,
            frame.0@.subrange(0, 20) == report.wire(),
            forall|k: int| 20 <= k < XINPUT_RW_BUFFER_SIZE ==> frame.0@[k] == 0,
    {
        proof {
            crate::report::lemma_wire_shape(*report);
        }
        self.writer.write_control(report)
    }

    /// Says what one transfer on the OUT endpoint means.
    ///
    /// See [`XinputReader::read`].
    pub fn read(&self, buf_len: usize, outcome: Result<usize, EndpointError>) -> (r: Option<
        Result<usize, ReadError>,
    >)
        requires
            buf_len >= self.reader().max_packet(),
            self.reader().admits(outcome),
        ensures
            r == read_result(outcome),
            r matches Some(Ok(size)) ==> 0 < size <= buf_len,
    {
        self.reader.read(buf_len, outcome)
    }
}

/// A reader whose endpoint is disabled waits for the host to enable it and
/// then reads on: after the error it waits for the endpoint and has
/// nothing to do, and once the endpoint is enabled it waits for a transfer
/// again, whatever it waited for before.
pub proof fn lemma_disabled_then_enabled(waiting: Waiting, use_report_ids: bool, buf: Seq<u8>)
    ensures
        ({
            let disabled = ReaderEvent::Transfer(Err(EndpointError::Disabled));
            let suspended = waiting_after(waiting, disabled);
            &&& suspended == Waiting::Enabled
            &&& output_of(use_report_ids, disabled, buf) == ReaderOutput::Nothing
            &&& waiting_after(suspended, ReaderEvent::Enabled) == Waiting::Transfer
            &&& output_of(use_report_ids, ReaderEvent::Enabled, buf) == ReaderOutput::Nothing
        }),
{
}

/// Only a disabled endpoint makes the reader wait for anything but the next
/// transfer: a report, a keep-alive and an overflowing packet all leave a
/// reading reader reading.
pub proof fn lemma_reader_keeps_reading(outcome: Result<usize, EndpointError>)
    ensures
        waiting_after(Waiting::Transfer, ReaderEvent::Transfer(outcome)) == (if outcome == Err::<
            usize,
            EndpointError,
        >(EndpointError::Disabled) {
            Waiting::Enabled
        } else {
            Waiting::Transfer
        }),
{
}

} // verus!
