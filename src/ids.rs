//! USB identifiers of the supported mice.

use vstd::prelude::*;

verus! {

pub const VXE_VID: u16 = 0x373b;

pub const MADR_WIRED_PID: u16 = 0x103f;

pub const MADR_WIRELESS_PID: u16 = 0x1040;

/// The HID interface that carries the control frames.
pub const CONTROL_INTERFACE: i32 = 1;

/// Whether a HID interface is the control interface of a supported mouse.
pub fn is_madr_interface(vendor_id: u16, product_id: u16, interface_number: i32) -> (r: bool)
    ensures
        r == (vendor_id == VXE_VID && (product_id == MADR_WIRED_PID || product_id
            == MADR_WIRELESS_PID) && interface_number == CONTROL_INTERFACE),
{
    vendor_id == VXE_VID && (product_id == MADR_WIRED_PID || product_id == MADR_WIRELESS_PID)
        && interface_number == CONTROL_INTERFACE
}

/// Whether a product id is that of the wired mouse.
pub fn is_wired_product(product_id: u16) -> (r: bool)
    ensures
        r == (product_id == MADR_WIRED_PID),
{
    product_id == MADR_WIRED_PID
}

} // verus!
