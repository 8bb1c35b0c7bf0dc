//! The types of the USB device stack that values of this library are made
//! from or handed to.
//!
//! All three are plain public data of `embassy-usb` and its driver crate:
//! two enums without fields and a wrapper of one public `u8`. They are
//! declared in full, so the verifier reads their variants and field from the
//! stack's own definition and nothing is assumed about them.

use vstd::prelude::*;

verus! {

/// `embassy_usb::driver::EndpointError`: why a transfer on an endpoint failed.
#[verifier::external_type_specification]
pub struct ExEndpointError(embassy_usb::driver::EndpointError);

/// `embassy_usb::control::OutResponse`: the answer to a request from the host.
#[verifier::external_type_specification]
pub struct ExOutResponse(embassy_usb::control::OutResponse);

/// `embassy_usb::types::StringIndex`: the number of a string descriptor.
#[verifier::external_type_specification]
pub struct ExStringIndex(embassy_usb::types::StringIndex);

} // verus!
