use embassy_usb::driver::EndpointError;
use pad_oxide::endpoint::{
    ReadError, ReaderEvent, ReaderOutput, Waiting, XinputReader, XinputReaderWriter, XinputWriter,
};
use pad_oxide::report::{AsXinputReport, XinputControlReport};
use pad_oxide::request::ReportId;

#[test]
fn endpoint_errors_map_to_read_errors() {
    assert_eq!(ReadError::from(EndpointError::BufferOverflow), ReadError::BufferOverflow);
    assert_eq!(ReadError::from(EndpointError::Disabled), ReadError::Disabled);
}

#[test]
fn read_passes_over_keep_alives() {
    let reader = XinputReader::new(32);
    assert_eq!(reader.read(32, Ok(0)), None);
}

#[test]
fn read_returns_the_size_of_a_report() {
    let reader = XinputReader::new(32);
    assert_eq!(reader.read(32, Ok(1)), Some(Ok(1)));
    assert_eq!(reader.read(32, Ok(8)), Some(Ok(8)));
    assert_eq!(reader.read(64, Ok(32)), Some(Ok(32)));
}

#[test]
fn read_returns_the_error() {
    let reader = XinputReader::new(32);
    assert_eq!(
        reader.read(32, Err(EndpointError::BufferOverflow)),
        Some(Err(ReadError::BufferOverflow))
    );
    assert_eq!(reader.read(32, Err(EndpointError::Disabled)), Some(Err(ReadError::Disabled)));
}

#[test]
fn new_reader_waits_for_a_transfer() {
    let reader = XinputReader::new(0x20);
    assert_eq!(reader.waiting(), Waiting::Transfer);
    assert_eq!(reader.max_packet_size(), 32);
}

#[test]
fn run_hands_on_a_report_without_report_ids() {
    let mut reader = XinputReader::new(32);
    let mut buf = [0u8; 32];
    buf[0] = 0x01;
    buf[2] = 0x06;
    let output = reader.run(false, ReaderEvent::Transfer(Ok(3)), &buf);
    assert_eq!(output, ReaderOutput::Report { id: ReportId::Out(0), len: 3 });
    assert_eq!(reader.waiting(), Waiting::Transfer);
}

#[test]
fn run_hands_on_a_report_with_report_ids() {
    let mut reader = XinputReader::new(32);
    let mut buf = [0u8; 32];
    buf[0] = 0x2a;
    let output = reader.run(true, ReaderEvent::Transfer(Ok(8)), &buf);
    assert_eq!(output, ReaderOutput::Report { id: ReportId::Out(0x2a), len: 8 });
    assert_eq!(reader.waiting(), Waiting::Transfer);
}

#[test]
fn run_reads_past_a_keep_alive() {
    let mut reader = XinputReader::new(32);
    let buf = [0u8; 32];
    assert_eq!(reader.run(false, ReaderEvent::Transfer(Ok(0)), &buf), ReaderOutput::Nothing);
    assert_eq!(reader.waiting(), Waiting::Transfer);
}

#[test]
fn run_notes_an_overflow_and_reads_on() {
    let mut reader = XinputReader::new(32);
    let buf = [0u8; 32];
    let output = reader.run(false, ReaderEvent::Transfer(Err(EndpointError::BufferOverflow)), &buf);
    assert_eq!(output, ReaderOutput::Overflow);
    assert_eq!(reader.waiting(), Waiting::Transfer);
}

#[test]
fn disabled_endpoint_suspends_until_enabled_then_reads_on() {
    let mut reader = XinputReader::new(32);
    let mut buf = [0u8; 32];
    let output = reader.run(false, ReaderEvent::Transfer(Err(EndpointError::Disabled)), &buf);
    assert_eq!(output, ReaderOutput::Nothing);
    assert_eq!(reader.waiting(), Waiting::Enabled);
    let output = reader.run(false, ReaderEvent::Enabled, &buf);
    assert_eq!(output, ReaderOutput::Nothing);
    assert_eq!(reader.waiting(), Waiting::Transfer);
    assert_eq!(reader.max_packet_size(), 32);
    buf[0] = 0x00;
    buf[3] = 9;
    let output = reader.run(false, ReaderEvent::Transfer(Ok(8)), &buf);
    assert_eq!(output, ReaderOutput::Report { id: ReportId::Out(0), len: 8 });
    assert_eq!(reader.waiting(), Waiting::Transfer);
}

#[test]
fn enabled_while_reading_changes_nothing() {
    let mut reader = XinputReader::new(32);
    let buf = [0u8; 32];
    assert_eq!(reader.run(true, ReaderEvent::Enabled, &buf), ReaderOutput::Nothing);
    assert_eq!(reader.waiting(), Waiting::Transfer);
}

#[test]
fn write_control_frames_a_report_in_a_zeroed_buffer() {
    let writer = XinputWriter::new(32);
    assert_eq!(writer.max_packet_size(), 32);
    let mut report = XinputControlReport::new();
    report.button_b = true;
    report.js_left_x = 0x0102;
    let (buf, len) = writer.write_control(&report);
    assert_eq!(len, 20);
    assert_eq!(&buf[..len], &report.encode());
    assert_eq!(
        &buf[..len],
        &[0x00, 0x14, 0x00, 0x20, 0, 0, 0x02, 0x01, 0, 0, 0, 0, 0, 0, 0, 0, 0, 0, 0, 0]
    );
    assert_eq!(&buf[len..], &[0u8; 12]);
}

#[test]
fn write_control_takes_any_report_behind_the_trait() {
    let writer = XinputWriter::new(32);
    let mut report = XinputControlReport::new();
    report.xbox_button = true;
    let shown: &dyn AsXinputReport = &report;
    let (buf, len) = writer.write_control(shown);
    assert_eq!(len, 20);
    assert_eq!(buf[3], 0x04);
    let mut again = [0u8; 32];
    assert_eq!(shown.to_report(0, &mut again), 20);
    assert_eq!(buf, again);
}

#[test]
fn reader_writer_splits_into_the_control_pair() {
    let pair = XinputReaderWriter::new();
    assert_eq!(pair.read(32, Ok(0)), None);
    assert_eq!(pair.read(32, Ok(3)), Some(Ok(3)));
    assert_eq!(pair.read(32, Err(EndpointError::Disabled)), Some(Err(ReadError::Disabled)));
    let report = XinputControlReport::new();
    let (buf, len) = pair.write_control(&report);
    assert_eq!(len, 20);
    assert_eq!(&buf[..20], &report.encode());
    let (reader, writer) = pair.split();
    assert_eq!(reader.max_packet_size(), 32);
    assert_eq!(reader.waiting(), Waiting::Transfer);
    assert_eq!(writer.max_packet_size(), 32);
}
