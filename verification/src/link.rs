//! What the library reads of the device-link layer: the information a
//! calculator reports about itself, directory entries, and the failures of a
//! session operation.

use vstd::prelude::*;
use crate::text::{decimal, push_char, push_decimal};

verus! {

/// The hardware family a calculator reports.
#[derive(Clone, Copy, Debug, PartialEq, Eq, Structural)]
pub enum HardwareType {
    Cas,
    NonCas,
    CasCx,
    NonCasCx,
    Unknown(u8),
}

/// The battery state a calculator reports. It is a state, not a gauge.
#[derive(Clone, Copy, Debug, PartialEq, Eq, Structural)]
pub enum Battery {
    Powered,
    Low,
    Normal,
    Unknown(u8),
}

/// A four-part version number.
#[derive(Clone, Copy, Debug, PartialEq, Eq, Structural)]
pub struct Version {
    pub major: u8,
    pub minor: u8,
    pub patch: u8,
    pub build: u16,
}

/// The geometry of the screen.
#[derive(Clone, Copy, Debug, PartialEq, Eq, Structural)]
pub struct Lcd {
    pub width: u16,
    pub height: u16,
    pub bpp: u8,
    pub sample_mode: u8,
}

/// The information snapshot that a calculator gives over an open session.
#[derive(Clone, Debug, PartialEq, Eq)]
pub struct Info {
    pub free_storage: u64,
    pub total_storage: u64,
    pub free_ram: u64,
    pub total_ram: u64,
    pub version: Version,
    pub boot1_version: Version,
    pub boot2_version: Version,
    pub hw_type: HardwareType,
    pub clock_speed: u8,
    pub lcd: Lcd,
    pub name: String,
    pub battery: Battery,
    pub is_charging: bool,
}

/// The mathematical value of an [`Info`].
pub struct InfoView {
    pub free_storage: u64,
    pub total_storage: u64,
    pub free_ram: u64,
    pub total_ram: u64,
    pub version: Version,
    pub boot1_version: Version,
    pub boot2_version: Version,
    pub hw_type: HardwareType,
    pub clock_speed: u8,
    pub lcd: Lcd,
    pub name: Seq<char>,
    pub battery: Battery,
    pub is_charging: bool,
}

impl View for Info {
    type V = InfoView;

    open spec fn view(&self) -> InfoView {
        InfoView {
            free_storage: self.free_storage,
            total_storage: self.total_storage,
            free_ram: self.free_ram,
            total_ram: self.total_ram,
            version: self.version,
            boot1_version: self.boot1_version,
            boot2_version: self.boot2_version,
            hw_type: self.hw_type,
            clock_speed: self.clock_speed,
            lcd: self.lcd,
            name: self.name@,
            battery: self.battery,
            is_charging: self.is_charging,
        }
    }
}

/// The text of a version: its four parts in decimal, joined by dots.
pub open spec fn version_text(v: Version) -> Seq<char> {
    decimal(v.major as nat) + seq!['.'] + decimal(v.minor as nat) + seq!['.'] + decimal(
        v.patch as nat,
    ) + seq!['.'] + decimal(v.build as nat)
}

impl Version {
    /// The version as text, such as `4.5.0.1180`.
    pub fn to_text(&self) -> (s: String)
        ensures
            s@ == version_text(*self),
    {
        let mut s = String::new();
        push_decimal(&mut s, self.major as u16);
        push_char(&mut s, '.');
        push_decimal(&mut s, self.minor as u16);
        push_char(&mut s, '.');
        push_decimal(&mut s, self.patch as u16);
        push_char(&mut s, '.');
        push_decimal(&mut s, self.build);
        assert(s@ =~= version_text(*self));
        s
    }
}

/// Whether a directory entry is a file or a directory.
#[derive(Clone, Copy, Debug, PartialEq, Eq, Structural)]
pub enum EntryType {
    File,
    Directory,
}

/// One entry of a directory listing, as the device-link layer reports it.
#[derive(Clone, Debug, PartialEq, Eq)]
pub struct DirEntry {
    pub name: String,
    pub entry_type: EntryType,
    pub date: u64,
    pub size: u64,
}

/// The mathematical value of a [`DirEntry`].
pub struct DirEntryView {
    pub name: Seq<char>,
    pub entry_type: EntryType,
    pub date: u64,
    pub size: u64,
}

impl View for DirEntry {
    type V = DirEntryView;

    open spec fn view(&self) -> DirEntryView {
        DirEntryView {
            name: self.name@,
            entry_type: self.entry_type,
            date: self.date,
            size: self.size,
        }
    }
}

/// A failure of a session operation, as the device-link layer reports it:
/// either the device is gone, or anything else, with its message.
#[derive(Clone, Debug, PartialEq, Eq)]
pub enum LinkError {
    NoDevice,
    Failed(String),
}

/// The mathematical value of a [`LinkError`].
pub enum LinkErrorView {
    NoDevice,
    Failed(Seq<char>),
}

impl View for LinkError {
    type V = LinkErrorView;

    open spec fn view(&self) -> LinkErrorView {
        match self {
            LinkError::NoDevice => LinkErrorView::NoDevice,
            LinkError::Failed(detail) => LinkErrorView::Failed(detail@),
        }
    }
}

} // verus!
