//! Report selectors and the interface through which the application sees
//! reports from the host.

use embassy_usb::control::OutResponse;
use vstd::prelude::*;

verus! {

/// Tags a report buffer with its kind and number.
#[derive(Debug, Clone, Copy, PartialEq, Eq, Structural)]
pub enum ReportId {
    In(u8),
    Out(u8),
    Feature(u8),
}

impl ReportId {
    /// The report that a 16 bit selector names: the kind in the high byte
    /// (1 input, 2 output, 3 feature), the number in the low byte.
    pub open spec fn of_selector(value: u16) -> Option<ReportId> {
        let kind = value as int / 256;
        let number = (value as int % 256) as u8;
        if kind == 1 {
            Some(ReportId::In(number))
        } else if kind == 2 {
            Some(ReportId::Out(number))
        } else if kind == 3 {
            Some(ReportId::Feature(number))
        } else {
            None
        }
    }

    /// Reads a 16 bit selector. Fails on a kind other than 1, 2 and 3.
    pub fn try_from(value: u16) -> (r: Result<Self, ()>)
        ensures
            r.ok() == Self::of_selector(value),
    {
        let number: u8 = (value % 256) as u8;
        let kind: u16 = value / 256;
        if kind == 1 {
            Ok(ReportId::In(number))
        } else if kind == 2 {
            Ok(ReportId::Out(number))
        } else if kind == 3 {
            Ok(ReportId::Feature(number))
        } else {
            Err(())
        }
    }
}

/// Interface to handle
pub trait RequestHandler {
    /// Reads the value of report `id` into `buf` returning the size.
    ///
    /// Returns `None` if `id` is invalid or no data is available.
    ///
    /// A handler that does not provide this method has no report to give: it
    /// returns `None` and leaves `buf` as it is.
    fn get_report(&self, id: ReportId, buf: &mut [u8]) -> (size: Option<usize>)
        default_ensures
            size is None,
            final(buf)@ == old(buf)@,
    {
        None
    }

    /// Sets the value of report `id` to `data`.
    /// That means the msg from host is received and processed/saved.
    ///
    /// A handler that does not provide this method rejects every report.
    fn set_report(&self, id: ReportId, data: &[u8]) -> (response: OutResponse)
        default_ensures
            response == OutResponse::Rejected,
    {
        OutResponse::Rejected
    }
}

} // verus!
