//! What the library reads of the USB platform layer: the identity of the
//! accepted calculators, device descriptors, and the platform's errors.

use vstd::prelude::*;

verus! {

/// Vendor id of the accepted calculators.
pub const VID: u16 = 0x0451;

/// Product id of the first calculator line.
pub const PID: u16 = 0xe012;

/// Product id of the extended model.
pub const PID_CX2: u16 = 0xe022;

/// The failures the USB platform layer distinguishes.
#[derive(Clone, Copy, Debug, PartialEq, Eq, Structural)]
pub enum UsbError {
    Io,
    InvalidParam,
    Access,
    NoDevice,
    NotFound,
    Busy,
    Timeout,
    Overflow,
    Pipe,
    Interrupted,
    NoMem,
    NotSupported,
    BadDescriptor,
    Other,
}

/// The part of a USB device descriptor that identifies the product.
#[derive(Clone, Copy, Debug, PartialEq, Eq, Structural)]
pub struct UsbDescriptor {
    pub vendor_id: u16,
    pub product_id: u16,
}

/// Whether a vendor/product pair is one of the two accepted calculators.
pub open spec fn is_supported(vendor_id: u16, product_id: u16) -> bool {
    vendor_id == VID && (product_id == PID || product_id == PID_CX2)
}

impl UsbDescriptor {
    /// Whether the descriptor is that of an accepted calculator.
    pub fn is_supported(&self) -> (b: bool)
        ensures
            b == is_supported(self.vendor_id, self.product_id),
    {
        self.vendor_id == VID && (self.product_id == PID || self.product_id == PID_CX2)
    }
}

impl UsbError {
    /// Whether the platform could see the device but not open it for want of
    /// a driver or of permission.
    pub open spec fn spec_is_driver_problem(self) -> bool {
        self == UsbError::NotSupported || self == UsbError::Access
    }

    /// Whether the platform could see the device but not open it for want of
    /// a driver or of permission.
    #[verifier::when_used_as_spec(spec_is_driver_problem)]
    pub fn is_driver_problem(self) -> (b: bool)
        ensures
            b == self.spec_is_driver_problem(),
    {
        match self {
            UsbError::NotSupported => true,
            UsbError::Access => true,
            _ => false,
        }
    }
}

} // verus!
