//! What the arrival and the departure of a device do to the registry.
//!
//! A device that has just arrived may still be busy. Its probe is repeated
//! after a pause, a bounded number of times; [`device_arrived`] decides after
//! each attempt whether the device is registered, the probe is repeated, or
//! the arrival is given up. The caller makes the probe and the pause.

use vstd::prelude::*;
use crate::cmd::{AddDevicePayload, AddDevicePayloadView, DeviceId};
use crate::registry::{Device, DeviceView, Registry};
use crate::usb::UsbError;

verus! {

/// How often the probe of an arriving device is made, and how long the pause
/// between two attempts is.
#[derive(Clone, Copy, Debug, PartialEq, Eq, Structural)]
pub struct RetryPolicy {
    pub max_attempts: u32,
    pub delay_ms: u64,
}

impl RetryPolicy {
    /// The policy of the hotplug monitor: ten attempts, a quarter of a second
    /// apart.
    pub fn hotplug() -> (p: RetryPolicy)
        ensures
            p == (RetryPolicy { max_attempts: 10, delay_ms: 250 }),
    {
        RetryPolicy { max_attempts: 10, delay_ms: 250 }
    }
}

/// What the caller does after an attempt to probe an arriving device.
#[derive(Clone, Debug, PartialEq, Eq)]
pub enum ArrivalAction {
    /// The device was registered: announce it and stop.
    Registered(AddDevicePayload),
    /// The device was busy: pause for `delay_ms` and probe again.
    Retry { delay_ms: u64 },
    /// Stop without announcing anything.
    GiveUp,
}

/// The mathematical value of an [`ArrivalAction`].
pub enum ArrivalActionView {
    Registered(AddDevicePayloadView),
    Retry { delay_ms: u64 },
    GiveUp,
}

impl View for ArrivalAction {
    type V = ArrivalActionView;

    open spec fn view(&self) -> ArrivalActionView {
        match self {
            ArrivalAction::Registered(p) => ArrivalActionView::Registered(p@),
            ArrivalAction::Retry { delay_ms } => ArrivalActionView::Retry { delay_ms: *delay_ms },
            ArrivalAction::GiveUp => ArrivalActionView::GiveUp,
        }
    }
}

/// What follows an attempt that gave `hallazgo`, after `previos` earlier
/// attempts: a device found is registered; a busy device is probed again
/// while the policy allows another attempt; anything else ends the arrival.
pub open spec fn arrival_action(
    politica: RetryPolicy,
    previos: int,
    hallazgo: Result<((u8, u8), Device), UsbError>,
) -> ArrivalActionView {
    match hallazgo {
        Ok(h) => ArrivalActionView::Registered(h.1@.payload(h.0)),
        Err(error) => if error == UsbError::Busy && previos + 1 < politica.max_attempts {
            ArrivalActionView::Retry { delay_ms: politica.delay_ms }
        } else {
            ArrivalActionView::GiveUp
        },
    }
}

/// The registry map after an attempt that gave `hallazgo`: a device found is
/// in it as a closed record; otherwise it is as before.
pub open spec fn arrival_entries(
    m: Map<(u8, u8), DeviceView>,
    hallazgo: Result<((u8, u8), Device), UsbError>,
) -> Map<(u8, u8), DeviceView> {
    match hallazgo {
        Ok(h) => m.insert(h.0, h.1@.closed()),
        Err(_) => m,
    }
}

/// The registry map and the notifications that the arrival of a device ends
/// with, when the attempts to probe it give `hallazgos` one after the other
/// and `previos` attempts were made before. The attempts that follow the end
/// of the arrival are not made.
pub open spec fn arrival_run(
    politica: RetryPolicy,
    m: Map<(u8, u8), DeviceView>,
    hallazgos: Seq<Result<((u8, u8), Device), UsbError>>,
    previos: int,
) -> (Map<(u8, u8), DeviceView>, Seq<AddDevicePayloadView>)
    decreases hallazgos.len(),
{
    if hallazgos.len() == 0 {
        (m, Seq::empty())
    } else {
        match arrival_action(politica, previos, hallazgos[0]) {
            ArrivalActionView::Registered(aviso) => (
                arrival_entries(m, hallazgos[0]),
                seq![aviso],
            ),
            ArrivalActionView::Retry { .. } => arrival_run(
                politica,
                m,
                hallazgos.drop_first(),
                previos + 1,
            ),
            ArrivalActionView::GiveUp => (m, Seq::empty()),
        }
    }
}

/// Takes the outcome `hallazgo` of one attempt to probe an arriving device,
/// made after `intentos_previos` earlier attempts, and tells what to do next.
/// A device found enters the registry, closed, and is to be announced.
pub fn device_arrived(
    registro: &mut Registry,
    politica: &RetryPolicy,
    intentos_previos: u32,
    hallazgo: Result<((u8, u8), Device), UsbError>,
) -> (a: ArrivalAction)
    requires
        old(registro).wf(),
    ensures
        final(registro).wf(),
        a@ == arrival_action(*politica, intentos_previos as int, hallazgo),
        final(registro)@ == arrival_entries(old(registro)@, hallazgo),
{
    match hallazgo {
        Ok(h) => {
            let aviso = registro.registrar(h.0, h.1);
            ArrivalAction::Registered(aviso)
        },
        Err(UsbError::Busy) => {
            if intentos_previos < politica.max_attempts && intentos_previos + 1
                < politica.max_attempts {
                ArrivalAction::Retry { delay_ms: politica.delay_ms }
            } else {
                ArrivalAction::GiveUp
            }
        },
        Err(_) => ArrivalAction::GiveUp,
    }
}

/// Takes the departure of the device `(bus_number, address)`: the registry
/// forgets it. Returns the identity to announce as removed if the registry
/// knew the device; a departure of an unknown device changes nothing and
/// announces nothing.
pub fn device_left(registro: &mut Registry, bus_number: u8, address: u8) -> (r: Option<DeviceId>)
    requires
        old(registro).wf(),
    ensures
        final(registro).wf(),
        final(registro)@ == old(registro)@.remove((bus_number, address)),
        r == (if old(registro)@.contains_key((bus_number, address)) {
            Some(DeviceId { bus_number, address })
        } else {
            None
        }),
{
    registro.device_left(bus_number, address)
}

} // verus!
