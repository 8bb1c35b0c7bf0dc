//! The strings that the device reports and the handlers of its interfaces.

use crate::request::RequestHandler;
use embassy_usb::types::StringIndex;
use vstd::prelude::*;

verus! {

// NOTE: the following string may vary on different 3rd-party controllers
// Since we do not communicate with XBox consoles, the SN doesn't make sense.
pub const XINPUT_DESC_STRING_VENDOR: &'static str = "Embassy";

pub const XINPUT_DESC_STRING_PRODUCT: &'static str = "Pad Oxide";

pub const XINPUT_DESC_STRING_SN: &'static str = "Controller";

pub const XINPUT_DESC_STRING_SECURITY: &'static str =
    "Pad Oxide does not support Xbox Security Method!";

/// Index of the vendor string descriptor.
pub const STRING_INDEX_VENDOR: u8 = 1;

/// Index of the product string descriptor.
pub const STRING_INDEX_PRODUCT: u8 = 2;

/// Index of the serial number string descriptor.
pub const STRING_INDEX_SERIAL_NUMBER: u8 = 3;

/// Index of the security string descriptor. It is the one index that the
/// device allocates beyond the three standard ones.
pub const STRING_INDEX_SECURITY: u8 = 4;

pub struct Config<'d> {
    // STRING descriptors
    pub vendor_string: Option<&'d str>,
    pub product_string: Option<&'d str>,
    pub serial_number_string: Option<&'d str>,
    pub security_string: Option<&'d str>,
    // Handlers for different interfaces.
    /// Control and LED handlers
    pub request_handler: Option<&'d dyn RequestHandler>,
    /// Audio and accessary handlers
    pub audio_handler: Option<&'d dyn RequestHandler>,
    /// A handler for an unknown interface
    pub unknown_handler: Option<&'d dyn RequestHandler>,
    /// A handler for security interface
    pub security_handler: Option<&'d dyn RequestHandler>,
}

impl<'d> Default for Config<'d> {
    /// The built-in strings and no handler.
    fn default() -> (config: Self)
        ensures
            config.vendor_string == Some(XINPUT_DESC_STRING_VENDOR),
            config.product_string == Some(XINPUT_DESC_STRING_PRODUCT),
            config.serial_number_string == Some(XINPUT_DESC_STRING_SN),
            config.security_string == Some(XINPUT_DESC_STRING_SECURITY),
            config.request_handler is None,
            config.audio_handler is None,
            config.unknown_handler is None,
            config.security_handler is None,
    {
        Config {
            vendor_string: Some(XINPUT_DESC_STRING_VENDOR),
            product_string: Some(XINPUT_DESC_STRING_PRODUCT),
            serial_number_string: Some(XINPUT_DESC_STRING_SN),
            security_string: Some(XINPUT_DESC_STRING_SECURITY),
            request_handler: None,
            audio_handler: None,
            unknown_handler: None,
            security_handler: None,
        }
    }
}

/// Answers the host's requests for string descriptors.
pub struct Control<'d> {
    pub vendor_string: Option<&'d str>,
    pub product_string: Option<&'d str>,
    pub serial_number_string: Option<&'d str>,
    pub security_string: Option<&'d str>,
    pub request_handler: Option<&'d dyn RequestHandler>,
}

impl<'d> Control<'d> {
    pub fn new(
        vendor_string: Option<&'d str>,
        product_string: Option<&'d str>,
        serial_number_string: Option<&'d str>,
        security_string: Option<&'d str>,
        request_handler: Option<&'d dyn RequestHandler>,
    ) -> (control: Self)
        ensures
            control.vendor_string == vendor_string,
            control.product_string == product_string,
            control.serial_number_string == serial_number_string,
            control.security_string == security_string,
            control.request_handler == request_handler,
    {
        Control {
            vendor_string,
            product_string,
            serial_number_string,
            security_string,
            request_handler,
        }
    }

    /// The string that stands under a descriptor index.
    pub open spec fn string_at(self, index: u8) -> Option<&'d str> {
        if index == STRING_INDEX_VENDOR {
            self.vendor_string
        } else if index == STRING_INDEX_PRODUCT {
            self.product_string
        } else if index == STRING_INDEX_SERIAL_NUMBER {
            self.serial_number_string
        } else if index == STRING_INDEX_SECURITY {
            self.security_string
        } else {
            None
        }
    }

    /// Answers a request for the string descriptor `index`, in any language.
    pub fn get_string(&self, index: StringIndex, lang_id: u16) -> (string: Option<&'d str>)
        ensures
            string == self.string_at(index.0),
    {
        let number: u8 = index.0;
        if number == STRING_INDEX_VENDOR {
            self.vendor_string
        } else if number == STRING_INDEX_PRODUCT {
            self.product_string
        } else if number == STRING_INDEX_SERIAL_NUMBER {
            self.serial_number_string
        } else if number == STRING_INDEX_SECURITY {
            self.security_string
        } else {
            None
        }
    }
}

/// A shared state of interface status
pub struct XinputState<'d> {
    control: Option<Control<'d>>,
}

impl<'d> XinputState<'d> {
    /// The control handler, once one was installed.
    pub closed spec fn control(self) -> Option<Control<'d>> {
        self.control
    }

    /// A state without a control handler.
    pub fn new() -> (state: Self)
        ensures
            state.control() is None,
    {
        XinputState { control: None }
    }

    /// Installs the control handler that answers with the strings of `config`
    /// and returns it. A handler installed before is replaced.
    pub fn install(&mut self, config: &Config<'d>) -> (control: &Control<'d>)
        ensures
            final(self).control() == Some(*control),
            control.vendor_string == config.vendor_string,
            control.product_string == config.product_string,
            control.serial_number_string == config.serial_number_string,
            control.security_string == config.security_string,
            control.request_handler == config.request_handler,
    {
        self.control = Some(
            Control::new(
                config.vendor_string,
                config.product_string,
                config.serial_number_string,
                config.security_string,
                config.request_handler,
            ),
        );
        self.control.as_ref().unwrap()
    }

    /// Answers a request for the string descriptor `index`: the installed
    /// handler's answer, and no string while none is installed.
    pub fn get_string(&self, index: StringIndex, lang_id: u16) -> (string: Option<&'d str>)
        ensures
            string == (match self.control() {
                Some(control) => control.string_at(index.0),
                None => None,
            }),
    {
        match &self.control {
            Some(control) => control.get_string(index, lang_id),
            None => None,
        }
    }
}

/// Why the device could not be put together.
#[derive(Debug, Clone, Copy, PartialEq, Eq, Structural)]
pub enum ConfigurationError {
    /// The string index allocated for the security string is not 4: the
    /// interfaces or strings were declared in another order.
    SecurityStringIndex { found: u8 },
    /// The endpoint that was allocated for a slot of an interface is not
    /// the one that the device declares there.
    Endpoint { interface: usize, slot: usize },
}

/// Accepts the string index that was allocated for the security string if
/// and only if it is 4.
pub fn check_security_string_index(index: StringIndex) -> (r: Result<(), ConfigurationError>)
    ensures
        r is Ok <==> index.0 == STRING_INDEX_SECURITY,
        r matches Err(e) ==> e == (ConfigurationError::SecurityStringIndex { found: index.0 }),
{
    if index.0 == STRING_INDEX_SECURITY {
        Ok(())
    } else {
        Err(ConfigurationError::SecurityStringIndex { found: index.0 })
    }
}

} // verus!
