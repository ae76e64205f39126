use d_link::cmd::{
    contiene, enumerate, registrar_nuevos, AddDevicePayload, DeviceId, EnumerationPlan,
};
use d_link::registry::{Device, DeviceState, Registry};
use d_link::usb::UsbError;

fn calculadora(name: &str, cx2: bool) -> Device {
    Device {
        nombre: String::from(name),
        estado: DeviceState::Closed,
        necesita_drivers: false,
        es_cx_ii: cx2,
    }
}

fn sorted(mut ids: Vec<DeviceId>) -> Vec<DeviceId> {
    ids.sort_by_key(|id| (id.bus_number, id.address));
    ids
}

#[test]
fn contiene_finds_a_key() {
    let claves = vec![(1, 2), (3, 4)];
    assert!(contiene(&claves, (1, 2)));
    assert!(contiene(&claves, (3, 4)));
    assert!(!contiene(&claves, (2, 1)));
    assert!(!contiene(&claves, (1, 4)));
    assert!(!contiene(&Vec::new(), (0, 0)));
}

#[test]
fn enumerate_on_an_empty_registry_asks_for_every_live_device() {
    let mut registro = Registry::new();
    let plan = enumerate(&mut registro, &vec![(1, 2), (1, 3)]);
    assert_eq!(plan, EnumerationPlan { removed: vec![], pending: vec![(1, 2), (1, 3)] });
    assert!(registro.identities().is_empty());
}

#[test]
fn enumerate_removes_the_devices_that_are_gone() {
    let mut registro = Registry::new();
    registro.registrar((1, 2), calculadora("a", false));
    registro.registrar((1, 3), calculadora("b", true));
    registro.registrar((2, 9), calculadora("c", false));
    let plan = enumerate(&mut registro, &vec![(5, 5), (1, 3)]);
    assert_eq!(
        sorted(plan.removed),
        vec![DeviceId { bus_number: 1, address: 2 }, DeviceId { bus_number: 2, address: 9 }]
    );
    assert_eq!(plan.pending, vec![(5, 5)]);
    assert_eq!(registro.identities(), vec![DeviceId { bus_number: 1, address: 3 }]);
    assert_eq!(registro.get(1, 3), Some(&calculadora("b", true)));
}

#[test]
fn enumerate_with_no_live_device_empties_the_registry() {
    let mut registro = Registry::new();
    registro.registrar((1, 2), calculadora("a", false));
    let plan = enumerate(&mut registro, &vec![]);
    assert_eq!(plan.removed, vec![DeviceId { bus_number: 1, address: 2 }]);
    assert!(plan.pending.is_empty());
    assert!(!registro.contains(1, 2));
}

#[test]
fn enumerate_keeps_the_order_of_the_live_list() {
    let mut registro = Registry::new();
    registro.registrar((2, 2), calculadora("a", false));
    let plan = enumerate(&mut registro, &vec![(9, 1), (2, 2), (3, 1), (1, 1)]);
    assert!(plan.removed.is_empty());
    assert_eq!(plan.pending, vec![(9, 1), (3, 1), (1, 1)]);
}

#[test]
fn registrar_nuevos_registers_what_was_found_and_skips_failures() {
    let mut registro = Registry::new();
    let hallazgos = vec![
        Ok(((1, 2), calculadora("TI-Nspire CX II", true))),
        Err(UsbError::Other),
        Err(UsbError::Busy),
        Ok(((1, 4), calculadora("TI-Nspire", false))),
    ];
    let avisos = registrar_nuevos(&mut registro, &hallazgos);
    assert_eq!(
        avisos,
        vec![
            AddDevicePayload {
                id: DeviceId { bus_number: 1, address: 2 },
                name: String::from("TI-Nspire CX II"),
                is_cx_ii: true,
                needs_drivers: false,
            },
            AddDevicePayload {
                id: DeviceId { bus_number: 1, address: 4 },
                name: String::from("TI-Nspire"),
                is_cx_ii: false,
                needs_drivers: false,
            },
        ]
    );
    assert_eq!(registro.identities().len(), 2);
    assert_eq!(registro.get(1, 2), Some(&calculadora("TI-Nspire CX II", true)));
    assert_eq!(registro.get(1, 4), Some(&calculadora("TI-Nspire", false)));
}

#[test]
fn registrar_nuevos_with_only_failures_changes_nothing() {
    let mut registro = Registry::new();
    registro.registrar((1, 2), calculadora("a", false));
    let avisos = registrar_nuevos(&mut registro, &vec![Err(UsbError::Other), Err(UsbError::Io)]);
    assert!(avisos.is_empty());
    assert_eq!(registro.identities(), vec![DeviceId { bus_number: 1, address: 2 }]);
    assert_eq!(registro.get(1, 2), Some(&calculadora("a", false)));
}

#[test]
fn second_pass_over_the_same_devices_announces_nothing() {
    let vivos = vec![(1, 2), (1, 3), (2, 1)];
    let sondeo = |k: (u8, u8)| -> Result<((u8, u8), Device), UsbError> {
        if k == (1, 3) {
            Err(UsbError::Other)
        } else {
            Ok((k, calculadora("TI-Nspire", false)))
        }
    };
    let mut registro = Registry::new();
    registro.registrar((7, 7), calculadora("gone", false));
    registro.registrar((2, 1), calculadora("kept", true));

    let plan = enumerate(&mut registro, &vivos);
    assert_eq!(plan.removed, vec![DeviceId { bus_number: 7, address: 7 }]);
    assert_eq!(plan.pending, vec![(1, 2), (1, 3)]);
    let hallazgos: Vec<_> = plan.pending.iter().map(|k| sondeo(*k)).collect();
    let avisos = registrar_nuevos(&mut registro, &hallazgos);
    assert_eq!(avisos.len(), 1);
    assert_eq!(avisos[0].id, DeviceId { bus_number: 1, address: 2 });
    let despues = sorted(registro.identities());

    let plan = enumerate(&mut registro, &vivos);
    assert!(plan.removed.is_empty());
    assert_eq!(plan.pending, vec![(1, 3)]);
    let hallazgos: Vec<_> = plan.pending.iter().map(|k| sondeo(*k)).collect();
    let avisos = registrar_nuevos(&mut registro, &hallazgos);
    assert!(avisos.is_empty());
    assert_eq!(sorted(registro.identities()), despues);
    assert_eq!(registro.get(2, 1), Some(&calculadora("kept", true)));
}
