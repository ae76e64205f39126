use d_link::cmd::{AddDevicePayload, DeviceId};
use d_link::hotplug::{device_arrived, device_left, ArrivalAction, RetryPolicy};
use d_link::registry::{Device, DeviceState, Registry};
use d_link::usb::UsbError;

fn hallado(name: &str) -> Device {
    Device {
        nombre: String::from(name),
        estado: DeviceState::Closed,
        necesita_drivers: false,
        es_cx_ii: true,
    }
}

fn aviso(bus_number: u8, address: u8, name: &str) -> AddDevicePayload {
    AddDevicePayload {
        id: DeviceId { bus_number, address },
        name: String::from(name),
        is_cx_ii: true,
        needs_drivers: false,
    }
}

#[test]
fn hotplug_policy_is_ten_attempts_a_quarter_second_apart() {
    assert_eq!(RetryPolicy::hotplug(), RetryPolicy { max_attempts: 10, delay_ms: 250 });
}

#[test]
fn found_device_is_registered_and_announced() {
    let mut registro = Registry::new();
    let accion = device_arrived(&mut registro, &RetryPolicy::hotplug(), 0, Ok(((1, 2), hallado("n"))));
    assert_eq!(accion, ArrivalAction::Registered(aviso(1, 2, "n")));
    assert_eq!(registro.get(1, 2), Some(&hallado("n")));
}

#[test]
fn busy_device_is_probed_again_after_the_delay() {
    let mut registro = Registry::new();
    let politica = RetryPolicy::hotplug();
    for previos in 0..9 {
        let accion = device_arrived(&mut registro, &politica, previos, Err(UsbError::Busy));
        assert_eq!(accion, ArrivalAction::Retry { delay_ms: 250 });
    }
    assert!(registro.identities().is_empty());
}

#[test]
fn busy_device_is_given_up_after_the_last_attempt() {
    let mut registro = Registry::new();
    let politica = RetryPolicy::hotplug();
    assert_eq!(device_arrived(&mut registro, &politica, 9, Err(UsbError::Busy)), ArrivalAction::GiveUp);
    assert_eq!(device_arrived(&mut registro, &politica, 10, Err(UsbError::Busy)), ArrivalAction::GiveUp);
    assert_eq!(
        device_arrived(&mut registro, &politica, u32::MAX, Err(UsbError::Busy)),
        ArrivalAction::GiveUp
    );
    let ninguna = RetryPolicy { max_attempts: 0, delay_ms: 1 };
    assert_eq!(device_arrived(&mut registro, &ninguna, 0, Err(UsbError::Busy)), ArrivalAction::GiveUp);
    let una = RetryPolicy { max_attempts: 1, delay_ms: 1 };
    assert_eq!(device_arrived(&mut registro, &una, 0, Err(UsbError::Busy)), ArrivalAction::GiveUp);
    let dos = RetryPolicy { max_attempts: 2, delay_ms: 7 };
    assert_eq!(
        device_arrived(&mut registro, &dos, 0, Err(UsbError::Busy)),
        ArrivalAction::Retry { delay_ms: 7 }
    );
    assert!(registro.identities().is_empty());
}

#[test]
fn other_failure_is_given_up_at_once() {
    let mut registro = Registry::new();
    let politica = RetryPolicy::hotplug();
    assert_eq!(device_arrived(&mut registro, &politica, 0, Err(UsbError::Other)), ArrivalAction::GiveUp);
    assert_eq!(device_arrived(&mut registro, &politica, 0, Err(UsbError::Io)), ArrivalAction::GiveUp);
    assert_eq!(device_arrived(&mut registro, &politica, 3, Err(UsbError::Access)), ArrivalAction::GiveUp);
    assert!(registro.identities().is_empty());
}

#[test]
fn busy_three_times_then_found_registers_once() {
    let mut registro = Registry::new();
    let politica = RetryPolicy { max_attempts: 10, delay_ms: 0 };
    let mut respuestas = vec![
        Err(UsbError::Busy),
        Err(UsbError::Busy),
        Err(UsbError::Busy),
        Ok(((4, 8), hallado("TI-Nspire CX II"))),
        Ok(((4, 8), hallado("never probed"))),
    ]
    .into_iter();
    let mut avisos = Vec::new();
    let mut intentos = 0;
    loop {
        let hallazgo = respuestas.next().unwrap();
        match device_arrived(&mut registro, &politica, intentos, hallazgo) {
            ArrivalAction::Registered(a) => {
                avisos.push(a);
                break;
            }
            ArrivalAction::Retry { delay_ms } => {
                assert_eq!(delay_ms, 0);
                intentos += 1;
            }
            ArrivalAction::GiveUp => break,
        }
    }
    assert_eq!(intentos, 3);
    assert_eq!(avisos, vec![aviso(4, 8, "TI-Nspire CX II")]);
    assert_eq!(registro.identities(), vec![DeviceId { bus_number: 4, address: 8 }]);
    assert_eq!(registro.get(4, 8), Some(&hallado("TI-Nspire CX II")));
}

#[test]
fn departure_removes_a_known_device_and_announces_it() {
    let mut registro = Registry::new();
    registro.registrar((1, 2), hallado("a"));
    assert_eq!(device_left(&mut registro, 1, 2), Some(DeviceId { bus_number: 1, address: 2 }));
    assert!(!registro.contains(1, 2));
}

#[test]
fn departure_of_an_unknown_device_announces_nothing() {
    let mut registro = Registry::new();
    registro.registrar((1, 2), hallado("a"));
    assert_eq!(device_left(&mut registro, 2, 1), None);
    assert!(registro.contains(1, 2));
}
