//! What the device declares to the host: one vendor-class function of four
//! interfaces, each with a single alternate setting.
//!
//! | interface | subclass / protocol | descriptor type | endpoints |
//! |---|---|---|---|
//! | 0 control | `0x5D` / `0x01` | `0x21` | IN 1, OUT 1 |
//! | 1 audio, expansion | `0x5D` / `0x03` | `0x21` | IN 2, OUT 2, IN 3, OUT 3 |
//! | 2 unknown | `0x5D` / `0x02` | `0x21` | IN 4 |
//! | 3 security | `0xFD` / `0x13` | `0x41` | none |
//!
//! Only the control interface carries traffic. The endpoints of interfaces 1
//! and 2 are declared because the host's driver looks for them. The bodies
//! of the class descriptors were read off a real controller; their meaning
//! is known only in part and they are kept byte for byte.

use crate::config::ConfigurationError;
use vstd::prelude::*;

verus! {

// just copied from a controller with Xinput support
pub const USB_XINPUT_VID: u16 = 0x045e;

pub const USB_XINPUT_PID: u16 = 0x028e;

pub const USB_CLASS_VENDOR: u8 = 0xff;

pub const USB_SUBCLASS_VENDOR: u8 = 0xff;

pub const USB_PROTOCOL_VENDOR: u8 = 0xff;

pub const USB_DEVICE_RELEASE: u16 = 0x0114;

/// a common descriptor type for all xinput interfaces
pub const XINPUT_DESC_DESCTYPE_STANDARD: u8 = 0x21;

/// a special one for the security descriptor
pub const XINPUT_DESC_DESCTYPE_SECURITY: u8 = 0x41;

pub const XINPUT_IFACE_SUBCLASS_STANDARD: u8 = 0x5D;

pub const XINPUT_IFACE_SUBCLASS_SECURITY: u8 = 0xFD;

pub const XINPUT_IFACE_PROTO_IF0: u8 = 0x01;

pub const XINPUT_IFACE_PROTO_IF1: u8 = 0x03;

pub const XINPUT_IFACE_PROTO_IF2: u8 = 0x02;

pub const XINPUT_IFACE_PROTO_IF3: u8 = 0x13;

pub const XINPUT_EP_MAX_PACKET_SIZE: u16 = 0x20;

/// Size of the buffers that reports are read into and written from.
pub const XINPUT_RW_BUFFER_SIZE: usize = 0x20;

/// Number of interfaces of the device.
pub const XINPUT_INTERFACE_COUNT: usize = 4;

/// The interface on which the security string is allocated.
pub const XINPUT_SECURITY_STRING_INTERFACE: usize = 0;

/// Direction bit of an endpoint address: set on an IN endpoint.
pub const ENDPOINT_DIRECTION_IN: u8 = 0x80;

/// for control interface
pub const XINPUT_DESC_IF0: [u8; 15] = [
    0x00, 0x01, 0x01, 0x25,  // ???
    0x81,  // bEndpointAddress (IN, 1)
    0x14,  // bMaxDataSize
    0x00, 0x00, 0x00, 0x00, 0x13,  // ???
    0x01,  // bEndpointAddress (OUT, 1)
    0x08,  // bMaxDataSize
    0x00, 0x00,  // ???
];

/// for audio and expansion(possibly)
pub const XINPUT_DESC_IF1: [u8; 25] = [
    0x00, 0x01, 0x01, 0x01,  // ???
    0x82,  // bEndpointAddress (IN, 2)
    0x40,  // bMaxDataSize
    0x01,  // ???
    0x02,  // bEndpointAddress (OUT, 2)
    0x20,  // bMaxDataSize
    0x16,  // ???
    0x83,  // bEndpointAddress (IN, 3)
    0x00,  // bMaxDataSize
    0x00, 0x00, 0x00, 0x00, 0x00, 0x16,  // ???
    0x03,  // bEndpointAddress (OUT, 3)
    0x00,  // bMaxDataSize
    0x00, 0x00, 0x00, 0x00, 0x00,  // ???
];

/// for an unknown interface
pub const XINPUT_DESC_IF2: [u8; 7] = [
    0x00, 0x01, 0x01, 0x22,  // ???
    0x84,  // bEndpointAddress (IN, 4)
    0x07,  // bMaxDataSize
    0x00,  // ???
];

/// for security interface
pub const XINPUT_DESC_IF3: [u8; 4] = [
    0x00, 0x01, 0x01, 0x03,  // ???
];

/// One interrupt endpoint as it is declared to the host.
#[derive(Debug, Clone, Copy, PartialEq, Eq, Structural)]
pub struct EndpointLayout {
    /// Endpoint number in the low bits, direction in the highest bit.
    pub address: u8,
    /// Largest packet, in bytes.
    pub max_packet_size: u16,
    /// Polling interval, in milliseconds.
    pub interval_ms: u8,
}

impl EndpointLayout {
    /// Whether the endpoint carries data to the host.
    pub open spec fn is_in(self) -> bool {
        self.address >= ENDPOINT_DIRECTION_IN
    }

    /// The endpoint number, without the direction.
    pub open spec fn number(self) -> int {
        self.address as int % 128
    }

    /// Whether the endpoint carries data to the host.
    pub fn direction_in(&self) -> (r: bool)
        ensures
            r == self.is_in(),
    {
        self.address >= ENDPOINT_DIRECTION_IN
    }

    /// The endpoint number, without the direction.
    pub fn index(&self) -> (r: u8)
        ensures
            r == self.number(),
            r < 128,
    {
        self.address % 128
    }
}

/// One interface as it is declared to the host.
#[derive(Debug, Clone, Copy, PartialEq, Eq, Structural)]
pub struct InterfaceLayout {
    pub class: u8,
    pub subclass: u8,
    pub protocol: u8,
    /// Type of the class descriptor that follows the interface descriptor.
    pub descriptor_type: u8,
    /// Number of endpoints, declared in the order of their slots.
    pub endpoint_count: usize,
}

/// The interface with the given number; the device has four.
pub open spec fn interface_table(number: int) -> Option<InterfaceLayout> {
    if number == 0 {
        Some(
            InterfaceLayout {
                class: 0xff,
                subclass: 0x5D,
                protocol: 0x01,
                descriptor_type: 0x21,
                endpoint_count: 2,
            },
        )
    } else if number == 1 {
        Some(
            InterfaceLayout {
                class: 0xff,
                subclass: 0x5D,
                protocol: 0x03,
                descriptor_type: 0x21,
                endpoint_count: 4,
            },
        )
    } else if number == 2 {
        Some(
            InterfaceLayout {
                class: 0xff,
                subclass: 0x5D,
                protocol: 0x02,
                descriptor_type: 0x21,
                endpoint_count: 1,
            },
        )
    } else if number == 3 {
        Some(
            InterfaceLayout {
                class: 0xff,
                subclass: 0xFD,
                protocol: 0x13,
                descriptor_type: 0x41,
                endpoint_count: 0,
            },
        )
    } else {
        None
    }
}

/// The endpoint in the given slot of the given interface.
pub open spec fn endpoint_table(interface: int, slot: int) -> Option<EndpointLayout> {
    if interface == 0 && slot == 0 {
        Some(EndpointLayout { address: 0x81, max_packet_size: 0x20, interval_ms: 0x04 })
    } else if interface == 0 && slot == 1 {
        Some(EndpointLayout { address: 0x01, max_packet_size: 0x20, interval_ms: 0x08 })
    } else if interface == 1 && slot == 0 {
        Some(EndpointLayout { address: 0x82, max_packet_size: 0x40, interval_ms: 0x01 })
    } else if interface == 1 && slot == 1 {
        Some(EndpointLayout { address: 0x02, max_packet_size: 0x20, interval_ms: 0x16 })
    } else if interface == 1 && slot == 2 {
        Some(EndpointLayout { address: 0x83, max_packet_size: 0x00, interval_ms: 0x40 })
    } else if interface == 1 && slot == 3 {
        Some(EndpointLayout { address: 0x03, max_packet_size: 0x00, interval_ms: 0x10 })
    } else if interface == 2 && slot == 0 {
        Some(EndpointLayout { address: 0x84, max_packet_size: 0x07, interval_ms: 0x10 })
    } else {
        None
    }
}

/// The body of the class descriptor of the given interface.
pub open spec fn class_descriptor_table(interface: int) -> Option<Seq<u8>> {
    if interface == 0 {
        Some(XINPUT_DESC_IF0@)
    } else if interface == 1 {
        Some(XINPUT_DESC_IF1@)
    } else if interface == 2 {
        Some(XINPUT_DESC_IF2@)
    } else if interface == 3 {
        Some(XINPUT_DESC_IF3@)
    } else {
        None
    }
}

/// The interface with the given number, `None` from four on.
pub fn interface_layout(number: usize) -> (layout: Option<InterfaceLayout>)
    ensures
        layout == interface_table(number as int),
        layout is Some <==> number < XINPUT_INTERFACE_COUNT,
{
    if number == 0 {
        Some(
            InterfaceLayout {
                class: USB_CLASS_VENDOR,
                subclass: XINPUT_IFACE_SUBCLASS_STANDARD,
                protocol: XINPUT_IFACE_PROTO_IF0,
                descriptor_type: XINPUT_DESC_DESCTYPE_STANDARD,
                endpoint_count: 2,
            },
        )
    } else if number == 1 {
        Some(
            InterfaceLayout {
                class: USB_CLASS_VENDOR,
                subclass: XINPUT_IFACE_SUBCLASS_STANDARD,
                protocol: XINPUT_IFACE_PROTO_IF1,
                descriptor_type: XINPUT_DESC_DESCTYPE_STANDARD,
                endpoint_count: 4,
            },
        )
    } else if number == 2 {
        Some(
            InterfaceLayout {
                class: USB_CLASS_VENDOR,
                subclass: XINPUT_IFACE_SUBCLASS_STANDARD,
                protocol: XINPUT_IFACE_PROTO_IF2,
                descriptor_type: XINPUT_DESC_DESCTYPE_STANDARD,
                endpoint_count: 1,
            },
        )
    } else if number == 3 {
        Some(
            InterfaceLayout {
                class: USB_CLASS_VENDOR,
                subclass: XINPUT_IFACE_SUBCLASS_SECURITY,
                protocol: XINPUT_IFACE_PROTO_IF3,
                descriptor_type: XINPUT_DESC_DESCTYPE_SECURITY,
                endpoint_count: 0,
            },
        )
    } else {
        None
    }
}

/// The endpoint in the given slot of the given interface: `Some` exactly for
/// the slots below the interface's endpoint count.
pub fn endpoint_layout(interface: usize, slot: usize) -> (layout: Option<EndpointLayout>)
    ensures
        layout == endpoint_table(interface as int, slot as int),
        layout is Some <==> (interface_table(interface as int) matches Some(i) && slot
            < i.endpoint_count),
{
    if interface == 0 && slot == 0 {
        Some(
            EndpointLayout {
                address: 0x81,
                max_packet_size: XINPUT_EP_MAX_PACKET_SIZE,
                interval_ms: 0x04,
            },
        )
    } else if interface == 0 && slot == 1 {
        Some(
            EndpointLayout {
                address: 0x01,
                max_packet_size: XINPUT_EP_MAX_PACKET_SIZE,
                interval_ms: 0x08,
            },
        )
    } else if interface == 1 && slot == 0 {
        Some(EndpointLayout { address: 0x82, max_packet_size: 0x40, interval_ms: 0x01 })
    } else if interface == 1 && slot == 1 {
        Some(EndpointLayout { address: 0x02, max_packet_size: 0x20, interval_ms: 0x16 })
    } else if interface == 1 && slot == 2 {
        Some(EndpointLayout { address: 0x83, max_packet_size: 0x00, interval_ms: 0x40 })
    } else if interface == 1 && slot == 3 {
        Some(EndpointLayout { address: 0x03, max_packet_size: 0x00, interval_ms: 0x10 })
    } else if interface == 2 && slot == 0 {
        Some(EndpointLayout { address: 0x84, max_packet_size: 0x07, interval_ms: 0x10 })
    } else {
        None
    }
}

/// The body of the class descriptor of the given interface, `None` from
/// interface four on.
pub fn class_descriptor(interface: usize) -> (body: Option<&'static [u8]>)
    ensures
        body is Some <==> interface < XINPUT_INTERFACE_COUNT,
        match body {
            Some(bytes) => class_descriptor_table(interface as int) == Some(bytes@),
            None => class_descriptor_table(interface as int) is None,
        },
{
    if interface == 0 {
        Some(vstd::array::array_as_slice(&XINPUT_DESC_IF0))
    } else if interface == 1 {
        Some(vstd::array::array_as_slice(&XINPUT_DESC_IF1))
    } else if interface == 2 {
        Some(vstd::array::array_as_slice(&XINPUT_DESC_IF2))
    } else if interface == 3 {
        Some(vstd::array::array_as_slice(&XINPUT_DESC_IF3))
    } else {
        None
    }
}

/// Accepts the endpoint that was allocated for a slot of an interface if
/// and only if its address, largest packet and polling interval are the
/// ones that the device declares for that slot.
pub fn check_endpoint(
    interface: usize,
    slot: usize,
    address: u8,
    max_packet_size: u16,
    interval_ms: u8,
) -> (r: Result<(), ConfigurationError>)
    ensures
        r is Ok <==> endpoint_table(interface as int, slot as int) == Some(
            EndpointLayout { address, max_packet_size, interval_ms },
        ),
        r matches Err(e) ==> e == (ConfigurationError::Endpoint { interface, slot }),
{
    match endpoint_layout(interface, slot) {
        Some(expected) => {
            if expected.address == address && expected.max_packet_size == max_packet_size
                && expected.interval_ms == interval_ms {
                Ok(())
            } else {
                Err(ConfigurationError::Endpoint { interface, slot })
            }
        },
        None => Err(ConfigurationError::Endpoint { interface, slot }),
    }
}

/// Whether the security string is allocated on the given interface, after
/// its endpoints.
pub fn allocates_security_string(interface: usize) -> (r: bool)
    ensures
        r == (interface == XINPUT_SECURITY_STRING_INTERFACE),
{
    interface == XINPUT_SECURITY_STRING_INTERFACE
}

/// No two endpoints of the device have the same address, every endpoint
/// number is between 1 and 4, and the two endpoints of the control interface
/// are IN 1 and OUT 1 with packets of at most 32 bytes.
pub proof fn lemma_endpoint_addresses(i: int, s: int, j: int, t: int)
    ensures
        (endpoint_table(i, s) matches Some(a) && endpoint_table(j, t) matches Some(b) && a.address
            == b.address) ==> i == j && s == t,
        endpoint_table(i, s) matches Some(a) ==> 1 <= a.number() <= 4,
        endpoint_table(0, 0) matches Some(a) && a.is_in() && a.number() == 1 && a.max_packet_size
            == 32,
        endpoint_table(0, 1) matches Some(b) && !b.is_in() && b.number() == 1 && b.max_packet_size
            == 32,
{
}

} // verus!
