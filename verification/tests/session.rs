use d_link::cmd::{DeviceId, DeviceInfo, FileInfo};
use d_link::link::{
    Battery, DirEntry, EntryType, HardwareType, Info, Lcd, LinkError, Version,
};
use d_link::registry::{Device, DeviceState, Registry};
use d_link::session::{
    close_device, convertir_entradas, convertir_info, download_file, envolver_error, list_dir,
    nombre_de_descarga, obtener_dispositivo_abierto, open_device, ruta_de_subida, update_device,
    upload_file, upload_os, verificar_apertura, SerializedError, SessionError,
};

fn snapshot(name: &str, battery: Battery, hw_type: HardwareType) -> Info {
    Info {
        free_storage: 11,
        total_storage: 22,
        free_ram: 33,
        total_ram: 44,
        version: Version { major: 4, minor: 5, patch: 0, build: 1180 },
        boot1_version: Version { major: 3, minor: 0, patch: 0, build: 16 },
        boot2_version: Version { major: 4, minor: 0, patch: 1, build: 43 },
        hw_type,
        clock_speed: 132,
        lcd: Lcd { width: 320, height: 240, bpp: 16, sample_mode: 1 },
        name: String::from(name),
        battery,
        is_charging: true,
    }
}

fn shown(name: &str, battery: u8, hw_type: u8) -> DeviceInfo {
    DeviceInfo {
        name: String::from(name),
        free_storage: 11,
        total_storage: 22,
        free_ram: 33,
        total_ram: 44,
        battery,
        is_charging: true,
        os_version: String::from("4.5.0.1180"),
        boot1_version: String::from("3.0.0.16"),
        boot2_version: String::from("4.0.1.43"),
        hw_type,
        clock_speed: 132,
        lcd_width: 320,
        lcd_height: 240,
        lcd_bpp: 16,
        lcd_sample_mode: 1,
    }
}

fn record(needs_drivers: bool) -> Device {
    Device {
        nombre: String::from("TI-Nspire"),
        estado: DeviceState::Closed,
        necesita_drivers: needs_drivers,
        es_cx_ii: false,
    }
}

fn registry_with(key: (u8, u8), needs_drivers: bool) -> Registry {
    let mut registro = Registry::new();
    registro.registrar(key, record(needs_drivers));
    registro
}

fn open_registry(key: (u8, u8)) -> Registry {
    let mut registro = registry_with(key, false);
    open_device(&mut registro, key.0, key.1, snapshot("mine", Battery::Normal, HardwareType::Cas))
        .unwrap();
    registro
}

const ID: DeviceId = DeviceId { bus_number: 1, address: 2 };

#[test]
fn messages_of_session_errors() {
    assert_eq!(SessionError::DeviceNotFound.mensaje(), "Dispositivo no encontrado");
    assert_eq!(SessionError::NotOpen.mensaje(), "Dispositivo cerrado");
    assert_eq!(SessionError::AlreadyOpen.mensaje(), "El dispositivo ya esta abierto");
    assert_eq!(SessionError::DriverRequired.mensaje(), "El dispositivo necesita drivers");
    assert_eq!(SessionError::Disconnected.mensaje(), "No device found");
    assert_eq!(SessionError::OperationFailed(String::from("NACK received")).mensaje(), "NACK received");
    assert_eq!(SessionError::IOFailed(String::from("disk full")).mensaje(), "disk full");
}

#[test]
fn serialized_error_holds_the_message() {
    assert_eq!(SerializedError::new(String::from("boom")).message(), "boom");
    assert_eq!(
        SerializedError::from_session(&SessionError::NotOpen).message(),
        "Dispositivo cerrado"
    );
    assert_eq!(SerializedError::from("texto").message(), "texto");
    assert_eq!(SerializedError::from(42).message(), "42");
    assert_eq!(SerializedError::from(String::from("x")), SerializedError::new(String::from("x")));
}

#[test]
fn convertir_info_maps_battery_states() {
    let caso = |b: Battery| convertir_info(&snapshot("n", b, HardwareType::Cas)).battery;
    assert_eq!(caso(Battery::Powered), 100);
    assert_eq!(caso(Battery::Normal), 80);
    assert_eq!(caso(Battery::Low), 20);
    assert_eq!(caso(Battery::Unknown(0)), 50);
    assert_eq!(caso(Battery::Unknown(200)), 50);
}

#[test]
fn convertir_info_maps_hardware_types() {
    let caso = |h: HardwareType| convertir_info(&snapshot("n", Battery::Low, h)).hw_type;
    assert_eq!(caso(HardwareType::Cas), 0);
    assert_eq!(caso(HardwareType::NonCas), 1);
    assert_eq!(caso(HardwareType::CasCx), 2);
    assert_eq!(caso(HardwareType::NonCasCx), 3);
    assert_eq!(caso(HardwareType::Unknown(77)), 77);
    assert_eq!(caso(HardwareType::Unknown(0)), 0);
}

#[test]
fn convertir_info_copies_the_rest() {
    assert_eq!(
        convertir_info(&snapshot("My Nspire", Battery::Powered, HardwareType::NonCasCx)),
        shown("My Nspire", 100, 3)
    );
}

#[test]
fn lookup_of_an_open_session() {
    let registro = open_registry((1, 2));
    assert_eq!(
        obtener_dispositivo_abierto(&registro, &ID),
        Ok(&snapshot("mine", Battery::Normal, HardwareType::Cas))
    );
}

#[test]
fn lookup_fails_for_closed_and_unknown_devices() {
    let registro = registry_with((1, 2), false);
    assert_eq!(obtener_dispositivo_abierto(&registro, &ID), Err(SessionError::NotOpen));
    let otro = DeviceId { bus_number: 2, address: 1 };
    assert_eq!(obtener_dispositivo_abierto(&registro, &otro), Err(SessionError::DeviceNotFound));
}

#[test]
fn open_check_tells_why_a_device_cannot_be_opened() {
    let registro = registry_with((1, 2), false);
    assert_eq!(verificar_apertura(&registro, 1, 2), Ok(()));
    assert_eq!(verificar_apertura(&registro, 1, 3), Err(SessionError::DeviceNotFound));
    let abierto = open_registry((1, 2));
    assert_eq!(verificar_apertura(&abierto, 1, 2), Err(SessionError::AlreadyOpen));
    let sin_driver = registry_with((1, 2), true);
    assert_eq!(verificar_apertura(&sin_driver, 1, 2), Err(SessionError::DriverRequired));
}

#[test]
fn open_gives_the_info_and_opens_the_record() {
    let mut registro = registry_with((1, 2), false);
    let r = open_device(&mut registro, 1, 2, snapshot("mine", Battery::Low, HardwareType::CasCx));
    assert_eq!(r, Ok(shown("mine", 20, 2)));
    assert_eq!(
        registro.get(1, 2),
        Some(&Device {
            nombre: String::from("TI-Nspire"),
            estado: DeviceState::Open(snapshot("mine", Battery::Low, HardwareType::CasCx)),
            necesita_drivers: false,
            es_cx_ii: false,
        })
    );
}

#[test]
fn open_of_an_unknown_device_fails() {
    let mut registro = registry_with((1, 2), false);
    let r = open_device(&mut registro, 9, 9, snapshot("x", Battery::Low, HardwareType::Cas));
    assert_eq!(r, Err(SessionError::DeviceNotFound));
    assert!(!registro.contains(9, 9));
    assert_eq!(registro.get(1, 2), Some(&record(false)));
}

#[test]
fn second_open_is_refused_and_leaves_the_session() {
    let mut registro = open_registry((1, 2));
    let antes = registro.get(1, 2).cloned();
    let r = open_device(&mut registro, 1, 2, snapshot("other", Battery::Low, HardwareType::Cas));
    assert_eq!(r, Err(SessionError::AlreadyOpen));
    assert_eq!(registro.get(1, 2).cloned(), antes);
    assert_eq!(
        obtener_dispositivo_abierto(&registro, &ID),
        Ok(&snapshot("mine", Battery::Normal, HardwareType::Cas))
    );
}

#[test]
fn device_that_needs_a_driver_is_never_opened() {
    let mut registro = registry_with((1, 2), true);
    let r = open_device(&mut registro, 1, 2, snapshot("x", Battery::Low, HardwareType::Cas));
    assert_eq!(r, Err(SessionError::DriverRequired));
    assert_eq!(registro.get(1, 2), Some(&record(true)));
}

#[test]
fn close_closes_an_open_device() {
    let mut registro = open_registry((1, 2));
    assert_eq!(close_device(&mut registro, 1, 2), Ok(()));
    assert_eq!(registro.get(1, 2), Some(&record(false)));
    assert_eq!(obtener_dispositivo_abierto(&registro, &ID), Err(SessionError::NotOpen));
}

#[test]
fn close_of_a_closed_device_is_a_no_op() {
    let mut registro = registry_with((1, 2), false);
    assert_eq!(close_device(&mut registro, 1, 2), Ok(()));
    assert_eq!(close_device(&mut registro, 1, 2), Ok(()));
    assert_eq!(registro.get(1, 2), Some(&record(false)));
    assert_eq!(registro.identities().len(), 1);
}

#[test]
fn close_of_an_unknown_device_fails() {
    let mut registro = registry_with((1, 2), false);
    assert_eq!(close_device(&mut registro, 2, 2), Err(SessionError::DeviceNotFound));
    assert!(!registro.contains(2, 2));
}

#[test]
fn reopen_after_close_succeeds() {
    let mut registro = open_registry((1, 2));
    close_device(&mut registro, 1, 2).unwrap();
    let r = open_device(&mut registro, 1, 2, snapshot("again", Battery::Powered, HardwareType::Cas));
    assert_eq!(r, Ok(shown("again", 100, 0)));
}

#[test]
fn success_passes_through_the_wrapper() {
    let mut registro = open_registry((1, 2));
    let r = envolver_error(Ok(17u32), ID, &mut registro);
    assert_eq!(r, (Ok(17), None));
    assert!(registro.contains(1, 2));
}

#[test]
fn no_device_during_a_read_prunes_the_registry() {
    let mut registro = open_registry((1, 2));
    registro.registrar((3, 3), record(false));
    let lectura: Result<(), LinkError> = Err(LinkError::NoDevice);
    let (resultado, aviso) = envolver_error(lectura, ID, &mut registro);
    assert_eq!(resultado, Err(SessionError::Disconnected));
    assert_eq!(aviso, Some(ID));
    assert!(!registro.contains(1, 2));
    assert!(registro.contains(3, 3));
    assert_eq!(obtener_dispositivo_abierto(&registro, &ID), Err(SessionError::DeviceNotFound));
}

#[test]
fn other_failure_is_passed_on_with_its_message() {
    let mut registro = open_registry((1, 2));
    let fallo: Result<(), LinkError> = Err(LinkError::Failed(String::from("Timeout")));
    let (resultado, aviso) = envolver_error(fallo, ID, &mut registro);
    assert_eq!(resultado, Err(SessionError::OperationFailed(String::from("Timeout"))));
    assert_eq!(aviso, None);
    assert!(registro.contains(1, 2));
    assert!(obtener_dispositivo_abierto(&registro, &ID).is_ok());
}

#[test]
fn update_device_converts_or_prunes() {
    let mut registro = open_registry((1, 2));
    let r = update_device(&mut registro, 1, 2, Ok(snapshot("new", Battery::Low, HardwareType::NonCas)));
    assert_eq!(r, (Ok(shown("new", 20, 1)), None));
    let r = update_device(&mut registro, 1, 2, Err(LinkError::Failed(String::from("Busy"))));
    assert_eq!(r, (Err(SessionError::OperationFailed(String::from("Busy"))), None));
    assert!(registro.contains(1, 2));
    let r = update_device(&mut registro, 1, 2, Err(LinkError::NoDevice));
    assert_eq!(r, (Err(SessionError::Disconnected), Some(ID)));
    assert!(!registro.contains(1, 2));
}

#[test]
fn directory_entries_are_converted_in_order() {
    let entradas = vec![
        DirEntry { name: String::from("Examples"), entry_type: EntryType::Directory, date: 5, size: 0 },
        DirEntry { name: String::from("a.tns"), entry_type: EntryType::File, date: 6, size: 1234 },
    ];
    let esperado = vec![
        FileInfo { path: String::from("Examples"), is_dir: true, date: 5, size: 0 },
        FileInfo { path: String::from("a.tns"), is_dir: false, date: 6, size: 1234 },
    ];
    assert_eq!(convertir_entradas(&entradas), esperado);
    assert_eq!(convertir_entradas(&vec![]), vec![]);
    let mut registro = open_registry((1, 2));
    assert_eq!(list_dir(&mut registro, 1, 2, Ok(entradas)), (Ok(esperado), None));
    assert_eq!(
        list_dir(&mut registro, 1, 2, Err(LinkError::NoDevice)),
        (Err(SessionError::Disconnected), Some(ID))
    );
    assert!(!registro.contains(1, 2));
}

#[test]
fn download_name_is_the_last_segment() {
    assert_eq!(nombre_de_descarga("/Examples/a.tns"), "a.tns");
    assert_eq!(nombre_de_descarga("a.tns"), "a.tns");
    assert_eq!(nombre_de_descarga("dir/"), "");
    assert_eq!(nombre_de_descarga(""), "");
    assert_eq!(nombre_de_descarga("/"), "");
    assert_eq!(nombre_de_descarga("a//b"), "b");
    assert_eq!(nombre_de_descarga("/años/niño.tns"), "niño.tns");
}

#[test]
fn download_plan_for_an_open_device() {
    let registro = open_registry((1, 2));
    let plan = download_file(&registro, 1, 2, "/docs/big.tns", 2500).unwrap();
    assert_eq!(plan.buffer_len, 2500);
    assert_eq!(plan.file_name, "big.tns");
    assert_eq!(plan.reporter.id(), ID);
    assert_eq!(plan.reporter.total(), 2500);
    assert_eq!(plan.reporter.last_reported(), 2500);
    assert_eq!(plan.reporter.umbral(), 25);
}

#[test]
fn download_needs_an_open_session() {
    let cerrado = registry_with((1, 2), false);
    assert_eq!(download_file(&cerrado, 1, 2, "a", 1), Err(SessionError::NotOpen));
    assert_eq!(download_file(&cerrado, 1, 9, "a", 1), Err(SessionError::DeviceNotFound));
}

#[test]
fn upload_path_joins_directory_and_name() {
    assert_eq!(ruta_de_subida("/docs", "a.tns"), "/docs/a.tns");
    assert_eq!(ruta_de_subida("", "a.tns"), "/a.tns");
    assert_eq!(ruta_de_subida("/docs/", ""), "/docs//");
}

#[test]
fn upload_plan_for_an_open_device() {
    let registro = open_registry((1, 2));
    let plan = upload_file(&registro, 1, 2, Some("a.tns"), "/docs", 300).unwrap();
    assert_eq!(plan.ruta_completa, "/docs/a.tns");
    assert_eq!(plan.reporter.id(), ID);
    assert_eq!(plan.reporter.total(), 300);
    assert_eq!(plan.reporter.umbral(), 3);
}

#[test]
fn upload_fails_without_a_session_or_a_file_name() {
    let registro = open_registry((1, 2));
    assert_eq!(
        upload_file(&registro, 1, 2, None, "/docs", 300),
        Err(SessionError::IOFailed(String::from("No se pudo obtener el nombre del archivo")))
    );
    let cerrado = registry_with((1, 2), false);
    assert_eq!(upload_file(&cerrado, 1, 2, Some("a"), "/", 1), Err(SessionError::NotOpen));
    assert_eq!(upload_file(&cerrado, 1, 2, None, "/", 1), Err(SessionError::NotOpen));
    assert_eq!(upload_file(&cerrado, 5, 5, None, "/", 1), Err(SessionError::DeviceNotFound));
}

#[test]
fn os_upload_gives_a_reporter_for_an_open_device() {
    let registro = open_registry((1, 2));
    let reporter = upload_os(&registro, 1, 2, 100_000).unwrap();
    assert_eq!(reporter.id(), ID);
    assert_eq!(reporter.total(), 100_000);
    assert_eq!(reporter.umbral(), 1000);
    let cerrado = registry_with((1, 2), false);
    assert_eq!(upload_os(&cerrado, 1, 2, 5), Err(SessionError::NotOpen));
    assert_eq!(upload_os(&cerrado, 2, 1, 5), Err(SessionError::DeviceNotFound));
}
