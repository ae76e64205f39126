//! The session manager: opening and closing a device, and what every
//! session operation does before and after its transfer.
//!
//! The transfer itself is the caller's. Before it, the caller asks whether
//! the device has an open session ([`obtener_dispositivo_abierto`]) or
//! what a transfer needs ([`download_file`], [`upload_file`], [`upload_os`]).
//! After it, the caller hands the outcome to [`envolver_error`] or to the
//! operation's own function, which forgets a device that turned out to be
//! gone and translates the failure.

use vstd::prelude::*;
use vstd::string::*;
use crate::cmd::{DeviceId, DeviceInfo, DeviceInfoView, FileInfo, FileInfoView};
use crate::link::{
    version_text, Battery, DirEntry, DirEntryView, EntryType, HardwareType, Info, InfoView,
    LinkError, LinkErrorView,
};
use crate::progress::{crear_reporter_progreso, ProgressReporter};
use crate::registry::{DeviceState, DeviceStateView, DeviceView, Registry};
use crate::text::push_char;

verus! {

/// Why a session operation failed.
#[derive(Clone, Debug, PartialEq, Eq)]
pub enum SessionError {
    /// The registry does not know the identity.
    DeviceNotFound,
    /// The operation needs an open session and the device is closed.
    NotOpen,
    /// The device has an open session already.
    AlreadyOpen,
    /// The device cannot be opened until a driver is installed.
    DriverRequired,
    /// The device went away during the operation.
    Disconnected,
    /// The device-link layer failed otherwise; its message is passed on.
    OperationFailed(String),
    /// A local file could not be staged.
    IOFailed(String),
}

/// The mathematical value of a [`SessionError`].
pub enum SessionErrorView {
    DeviceNotFound,
    NotOpen,
    AlreadyOpen,
    DriverRequired,
    Disconnected,
    OperationFailed(Seq<char>),
    IOFailed(Seq<char>),
}

impl View for SessionError {
    type V = SessionErrorView;

    open spec fn view(&self) -> SessionErrorView {
        match self {
            SessionError::DeviceNotFound => SessionErrorView::DeviceNotFound,
            SessionError::NotOpen => SessionErrorView::NotOpen,
            SessionError::AlreadyOpen => SessionErrorView::AlreadyOpen,
            SessionError::DriverRequired => SessionErrorView::DriverRequired,
            SessionError::Disconnected => SessionErrorView::Disconnected,
            SessionError::OperationFailed(detalle) => SessionErrorView::OperationFailed(detalle@),
            SessionError::IOFailed(detalle) => SessionErrorView::IOFailed(detalle@),
        }
    }
}

impl SessionErrorView {
    /// The message that the command surface shows for the error.
    pub open spec fn message(self) -> Seq<char> {
        match self {
            SessionErrorView::DeviceNotFound => "Dispositivo no encontrado"@,
            SessionErrorView::NotOpen => "Dispositivo cerrado"@,
            SessionErrorView::AlreadyOpen => "El dispositivo ya esta abierto"@,
            SessionErrorView::DriverRequired => "El dispositivo necesita drivers"@,
            SessionErrorView::Disconnected => "No device found"@,
            SessionErrorView::OperationFailed(detalle) => detalle,
            SessionErrorView::IOFailed(detalle) => detalle,
        }
    }
}

impl SessionError {
    /// The message that the command surface shows for the error.
    pub fn mensaje(&self) -> (s: String)
        ensures
            s@ == self@.message(),
    {
        match self {
            SessionError::DeviceNotFound => String::from_str("Dispositivo no encontrado"),
            SessionError::NotOpen => String::from_str("Dispositivo cerrado"),
            SessionError::AlreadyOpen => String::from_str("El dispositivo ya esta abierto"),
            SessionError::DriverRequired => String::from_str("El dispositivo necesita drivers"),
            SessionError::Disconnected => String::from_str("No device found"),
            SessionError::OperationFailed(detalle) => detalle.clone(),
            SessionError::IOFailed(detalle) => detalle.clone(),
        }
    }
}

/// An error as the command surface hands it out: its message.
#[derive(Clone, Debug, PartialEq, Eq)]
pub struct SerializedError(String);

impl View for SerializedError {
    type V = Seq<char>;

    closed spec fn view(&self) -> Seq<char> {
        self.0@
    }
}

impl SerializedError {
    /// The string that holds the message.
    pub closed spec fn text(&self) -> String {
        self.0
    }

    /// The error with the message `mensaje`.
    pub fn new(mensaje: String) -> (e: SerializedError)
        ensures
            e.text() == mensaje,
            e@ == mensaje@,
    {
        SerializedError(mensaje)
    }

    /// The error that the command surface hands out for a failed session
    /// operation.
    pub fn from_session(error: &SessionError) -> (e: SerializedError)
        ensures
            e@ == error@.message(),
    {
        SerializedError(error.mensaje())
    }

    /// The message.
    pub fn message(&self) -> (s: &String)
        ensures
            *s == self.text(),
            s@ == self@,
    {
        &self.0
    }
}

impl<T: core::fmt::Display> From<T> for SerializedError {
    /// The error whose message is what `error` displays.
    fn from(error: T) -> (r: SerializedError)
        ensures
            to_string_from_display_ensures::<T>(&error, r.text()),
    {
        SerializedError(error.to_string())
    }
}

impl<T: core::fmt::Display> vstd::std_specs::convert::FromSpecImpl<T> for SerializedError {
    open spec fn obeys_from_spec() -> bool {
        false
    }

    open spec fn from_spec(v: T) -> Self {
        arbitrary()
    }
}

/// The charge that is shown for a battery state. The device reports a state,
/// not a level: the number is a fixed stand-in for each state.
pub open spec fn battery_percent(b: Battery) -> u8 {
    match b {
        Battery::Powered => 100,
        Battery::Normal => 80,
        Battery::Low => 20,
        Battery::Unknown(_) => 50,
    }
}

/// The number that stands for a hardware family.
pub open spec fn hardware_code(h: HardwareType) -> u8 {
    match h {
        HardwareType::Cas => 0,
        HardwareType::NonCas => 1,
        HardwareType::CasCx => 2,
        HardwareType::NonCasCx => 3,
        HardwareType::Unknown(v) => v,
    }
}

/// What the command surface tells of a device that reported `info`.
pub open spec fn device_info_of(info: InfoView) -> DeviceInfoView {
    DeviceInfoView {
        name: info.name,
        free_storage: info.free_storage,
        total_storage: info.total_storage,
        free_ram: info.free_ram,
        total_ram: info.total_ram,
        battery: battery_percent(info.battery),
        is_charging: info.is_charging,
        os_version: version_text(info.version),
        boot1_version: version_text(info.boot1_version),
        boot2_version: version_text(info.boot2_version),
        hw_type: hardware_code(info.hw_type),
        clock_speed: info.clock_speed,
        lcd_width: info.lcd.width,
        lcd_height: info.lcd.height,
        lcd_bpp: info.lcd.bpp,
        lcd_sample_mode: info.lcd.sample_mode,
    }
}

/// Turns the information that a calculator reports into what the command
/// surface tells of the device.
pub fn convertir_info(info: &Info) -> (r: DeviceInfo)
    ensures
        r@ == device_info_of(info@),
{
    let battery_percent: u8 = match info.battery {
        Battery::Powered => 100,
        Battery::Normal => 80,
        Battery::Low => 20,
        Battery::Unknown(_) => 50,
    };
    let hw_type_num: u8 = match info.hw_type {
        HardwareType::Cas => 0,
        HardwareType::NonCas => 1,
        HardwareType::CasCx => 2,
        HardwareType::NonCasCx => 3,
        HardwareType::Unknown(v) => v,
    };
    DeviceInfo {
        name: info.name.clone(),
        free_storage: info.free_storage,
        total_storage: info.total_storage,
        free_ram: info.free_ram,
        total_ram: info.total_ram,
        battery: battery_percent,
        is_charging: info.is_charging,
        os_version: info.version.to_text(),
        boot1_version: info.boot1_version.to_text(),
        boot2_version: info.boot2_version.to_text(),
        hw_type: hw_type_num,
        clock_speed: info.clock_speed,
        lcd_width: info.lcd.width,
        lcd_height: info.lcd.height,
        lcd_bpp: info.lcd.bpp,
        lcd_sample_mode: info.lcd.sample_mode,
    }
}

/// The outcome of looking up the open session of `k` in the map `m`: the
/// cached snapshot, or why there is no open session.
pub open spec fn open_session(m: Map<(u8, u8), DeviceView>, k: (u8, u8)) -> Result<
    InfoView,
    SessionErrorView,
> {
    if !m.contains_key(k) {
        Err(SessionErrorView::DeviceNotFound)
    } else {
        match m[k].estado {
            DeviceStateView::Open(info) => Ok(info),
            DeviceStateView::Closed => Err(SessionErrorView::NotOpen),
        }
    }
}

/// Looks up the open session of a device. Gives the snapshot taken when the
/// session was opened; fails with `DeviceNotFound` for an unknown identity
/// and with `NotOpen` for a closed device.
pub fn obtener_dispositivo_abierto<'a>(registro: &'a Registry, id: &DeviceId) -> (r: Result<
    &'a Info,
    SessionError,
>)
    ensures
        r is Ok <==> open_session(registro@, id.spec_key()) is Ok,
        r is Ok ==> r->Ok_0@ == open_session(registro@, id.spec_key())->Ok_0,
        r is Err ==> r->Err_0@ == open_session(registro@, id.spec_key())->Err_0,
{
    match registro.get(id.bus_number, id.address) {
        Some(dispositivo) => match &dispositivo.estado {
            DeviceState::Open(info) => Ok(info),
            DeviceState::Closed => Err(SessionError::NotOpen),
        },
        None => Err(SessionError::DeviceNotFound),
    }
}

/// Why the device `k` of the map `m` cannot be opened, or `None` if it can.
pub open spec fn open_refusal(m: Map<(u8, u8), DeviceView>, k: (u8, u8)) -> Option<
    SessionErrorView,
> {
    if !m.contains_key(k) {
        Some(SessionErrorView::DeviceNotFound)
    } else if !(m[k].estado is Closed) {
        Some(SessionErrorView::AlreadyOpen)
    } else if m[k].necesita_drivers {
        Some(SessionErrorView::DriverRequired)
    } else {
        None
    }
}

/// The registry map after an attempt to open the device `k` with the
/// snapshot `info`: the record is open with that snapshot if the attempt is
/// not refused, and the map is as before if it is.
pub open spec fn after_open(m: Map<(u8, u8), DeviceView>, k: (u8, u8), info: InfoView) -> Map<
    (u8, u8),
    DeviceView,
> {
    if open_refusal(m, k) is None {
        m.insert(k, m[k].opened(info))
    } else {
        m
    }
}

/// The registry map after the device `k` was closed: its record is closed,
/// if there is one.
pub open spec fn after_close(m: Map<(u8, u8), DeviceView>, k: (u8, u8)) -> Map<
    (u8, u8),
    DeviceView,
> {
    if m.contains_key(k) {
        m.insert(k, m[k].closed())
    } else {
        m
    }
}

/// Tells whether a session may be opened on the device, before the caller
/// opens the USB handle: the identity is known, the device is closed, and it
/// needs no driver.
pub fn verificar_apertura(registro: &Registry, bus_number: u8, address: u8) -> (r: Result<
    (),
    SessionError,
>)
    ensures
        r is Ok <==> open_refusal(registro@, (bus_number, address)) is None,
        r is Err ==> Some(r->Err_0@) == open_refusal(registro@, (bus_number, address)),
{
    match registro.get(bus_number, address) {
        None => Err(SessionError::DeviceNotFound),
        Some(dispositivo) => match &dispositivo.estado {
            DeviceState::Open(_) => Err(SessionError::AlreadyOpen),
            DeviceState::Closed => {
                if dispositivo.necesita_drivers {
                    Err(SessionError::DriverRequired)
                } else {
                    Ok(())
                }
            },
        },
    }
}

/// Opens the session of a device whose handle the caller has opened and
/// which reported `info`. On success the record is open with that snapshot,
/// and what the command surface tells of the device is returned. An unknown
/// identity, an open device and a device that needs a driver are refused, and
/// then nothing changes.
pub fn open_device(registro: &mut Registry, bus_number: u8, address: u8, info: Info) -> (r: Result<
    DeviceInfo,
    SessionError,
>)
    requires
        old(registro).wf(),
    ensures
        final(registro).wf(),
        r is Ok <==> open_refusal(old(registro)@, (bus_number, address)) is None,
        r is Err ==> Some(r->Err_0@) == open_refusal(old(registro)@, (bus_number, address)),
        r is Ok ==> r->Ok_0@ == device_info_of(info@),
        final(registro)@ == after_open(old(registro)@, (bus_number, address), info@),
{
    match verificar_apertura(registro, bus_number, address) {
        Err(e) => Err(e),
        Ok(_) => {
            let resultado = convertir_info(&info);
            let _ = registro.poner_estado((bus_number, address), DeviceState::Open(info));
            Ok(resultado)
        },
    }
}

/// Closes the session of a device, whatever its state was. Fails with
/// `DeviceNotFound` for an unknown identity, and then nothing changes.
pub fn close_device(registro: &mut Registry, bus_number: u8, address: u8) -> (r: Result<
    (),
    SessionError,
>)
    requires
        old(registro).wf(),
    ensures
        final(registro).wf(),
        r is Ok <==> old(registro)@.contains_key((bus_number, address)),
        r is Err ==> r->Err_0@ == SessionErrorView::DeviceNotFound,
        final(registro)@ == after_close(old(registro)@, (bus_number, address)),
{
    if registro.poner_estado((bus_number, address), DeviceState::Closed) {
        Ok(())
    } else {
        Err(SessionError::DeviceNotFound)
    }
}

/// The session error that stands for a failure of the device-link layer.
pub open spec fn translated(e: LinkErrorView) -> SessionErrorView {
    match e {
        LinkErrorView::NoDevice => SessionErrorView::Disconnected,
        LinkErrorView::Failed(detalle) => SessionErrorView::OperationFailed(detalle),
    }
}

/// Takes the outcome of a session operation on the device `id`.
///
/// A success is handed back as it is. If the device-link layer found the
/// device gone, the registry forgets it, the failure becomes `Disconnected`,
/// and the second part of the result is the identity to announce as removed.
/// Any other failure is passed on with its message, and the registry stays as
/// it is.
pub fn envolver_error<T>(resultado: Result<T, LinkError>, id: DeviceId, registro: &mut Registry) -> (r:
    (Result<T, SessionError>, Option<DeviceId>))
    requires
        old(registro).wf(),
    ensures
        final(registro).wf(),
        resultado is Ok ==> r.0 is Ok && r.0->Ok_0 == resultado->Ok_0,
        resultado is Err ==> r.0 is Err && r.0->Err_0@ == translated(resultado->Err_0@),
        r.1 == (if resultado is Err && resultado->Err_0@ is NoDevice {
            Some(id)
        } else {
            None
        }),
        final(registro)@ == (if r.1 is Some {
            old(registro)@.remove(id.spec_key())
        } else {
            old(registro)@
        }),
{
    match resultado {
        Ok(valor) => (Ok(valor), None),
        Err(LinkError::NoDevice) => {
            let _ = registro.device_left(id.bus_number, id.address);
            (Err(SessionError::Disconnected), Some(id))
        },
        Err(LinkError::Failed(detalle)) => (Err(SessionError::OperationFailed(detalle)), None),
    }
}

/// Takes the outcome of refreshing the information of the device. On
/// success gives what the command surface tells of the device; a failure is
/// treated as [`envolver_error`] does.
pub fn update_device(
    registro: &mut Registry,
    bus_number: u8,
    address: u8,
    resultado: Result<Info, LinkError>,
) -> (r: (Result<DeviceInfo, SessionError>, Option<DeviceId>))
    requires
        old(registro).wf(),
    ensures
        final(registro).wf(),
        resultado is Ok ==> r.0 is Ok && r.0->Ok_0@ == device_info_of(resultado->Ok_0@),
        resultado is Err ==> r.0 is Err && r.0->Err_0@ == translated(resultado->Err_0@),
        r.1 == (if resultado is Err && resultado->Err_0@ is NoDevice {
            Some(DeviceId { bus_number, address })
        } else {
            None
        }),
        final(registro)@ == (if r.1 is Some {
            old(registro)@.remove((bus_number, address))
        } else {
            old(registro)@
        }),
{
    let id = DeviceId { bus_number, address };
    let (envuelto, aviso) = envolver_error(resultado, id, registro);
    match envuelto {
        Ok(info) => (Ok(convertir_info(&info)), aviso),
        Err(e) => (Err(e), aviso),
    }
}

/// What the command surface tells of a directory entry.
pub open spec fn file_info_of(e: DirEntryView) -> FileInfoView {
    FileInfoView {
        path: e.name,
        is_dir: e.entry_type == EntryType::Directory,
        date: e.date,
        size: e.size,
    }
}

/// Turns the entries of a directory listing into what the command surface
/// tells of them, in the same order.
pub fn convertir_entradas(entradas: &Vec<DirEntry>) -> (r: Vec<FileInfo>)
    ensures
        r@.len() == entradas@.len(),
        forall|i: int| 0 <= i < r@.len() ==> (#[trigger] r@[i])@ == file_info_of(entradas@[i]@),
{
    let mut r: Vec<FileInfo> = Vec::new();
    let mut i: usize = 0;
    while i < entradas.len()
        invariant
            i <= entradas.len(),
            r@.len() == i,
            forall|j: int| 0 <= j < i ==> (#[trigger] r@[j])@ == file_info_of(entradas@[j]@),
        decreases entradas.len() - i,
    {
        let entrada = &entradas[i];
        let es_directorio = match entrada.entry_type {
            EntryType::Directory => true,
            EntryType::File => false,
        };
        r.push(
            FileInfo {
                path: entrada.name.clone(),
                is_dir: es_directorio,
                date: entrada.date,
                size: entrada.size,
            },
        );
        i += 1;
    }
    r
}

/// Takes the outcome of listing a directory of the device. On success gives
/// the entries as the command surface tells them; a failure is treated as
/// [`envolver_error`] does.
pub fn list_dir(
    registro: &mut Registry,
    bus_number: u8,
    address: u8,
    resultado: Result<Vec<DirEntry>, LinkError>,
) -> (r: (Result<Vec<FileInfo>, SessionError>, Option<DeviceId>))
    requires
        old(registro).wf(),
    ensures
        final(registro).wf(),
        resultado is Ok ==> r.0 is Ok && r.0->Ok_0@.len() == resultado->Ok_0@.len(),
        resultado is Ok ==> forall|i: int|
            0 <= i < resultado->Ok_0@.len() ==> (#[trigger] r.0->Ok_0@[i])@ == file_info_of(
                resultado->Ok_0@[i]@,
            ),
        resultado is Err ==> r.0 is Err && r.0->Err_0@ == translated(resultado->Err_0@),
        r.1 == (if resultado is Err && resultado->Err_0@ is NoDevice {
            Some(DeviceId { bus_number, address })
        } else {
            None
        }),
        final(registro)@ == (if r.1 is Some {
            old(registro)@.remove((bus_number, address))
        } else {
            old(registro)@
        }),
{
    let id = DeviceId { bus_number, address };
    let (envuelto, aviso) = envolver_error(resultado, id, registro);
    match envuelto {
        Ok(entradas) => (Ok(convertir_entradas(&entradas)), aviso),
        Err(e) => (Err(e), aviso),
    }
}

/// Where the last segment of a `/`-separated path starts: behind its last
/// `/`, or at 0 if it has none.
pub open spec fn last_segment_start(s: Seq<char>) -> int
    decreases s.len(),
{
    if s.len() == 0 {
        0
    } else if s.last() == '/' {
        s.len() as int
    } else {
        last_segment_start(s.drop_last())
    }
}

/// The last segment of a `/`-separated path: what follows its last `/`, or
/// all of it if it has none. It is empty for a path that ends in `/`.
pub open spec fn last_segment(s: Seq<char>) -> Seq<char> {
    s.subrange(last_segment_start(s), s.len() as int)
}

proof fn lemma_last_segment_start(s: Seq<char>, i: int)
    requires
        0 <= i <= s.len(),
        forall|j: int| i <= j < s.len() ==> s[j] != '/',
        i == 0 || s[i - 1] == '/',
    ensures
        last_segment_start(s) == i,
    decreases s.len() - i,
{
    if s.len() == 0 {
    } else if i == s.len() {
    } else {
        let t = s.drop_last();
        assert(s.last() == s[s.len() - 1]);
        assert forall|j: int| i <= j < t.len() implies t[j] != '/' by {
            assert(t[j] == s[j]);
        }
        if i > 0 {
            assert(t[i - 1] == s[i - 1]);
        }
        lemma_last_segment_start(t, i);
    }
}

/// The name under which a file of the device is stored locally: the last
/// segment of its path on the device.
pub fn nombre_de_descarga(src: &str) -> (r: String)
    ensures
        r@ == last_segment(src@),
{
    let n = src.unicode_len();
    let mut i: usize = n;
    while i > 0 && src.get_char(i - 1) != '/'
        invariant
            n == src@.len(),
            i <= n,
            forall|j: int| i <= j < n ==> src@[j] != '/',
        decreases i,
    {
        i -= 1;
    }
    proof {
        lemma_last_segment_start(src@, i as int);
    }
    src.substring_char(i, n).to_owned()
}

/// What a download needs: the size of the buffer to read into, the reporter
/// of its progress, and the name of the local file.
#[derive(Clone, Debug, PartialEq, Eq)]
pub struct DownloadPlan {
    pub buffer_len: usize,
    pub reporter: ProgressReporter,
    pub file_name: String,
}

/// Prepares the download of the file `src`, of `size` bytes, from the
/// device. Fails as [`obtener_dispositivo_abierto`] does if the device has no
/// open session.
pub fn download_file(registro: &Registry, bus_number: u8, address: u8, src: &str, size: u64) -> (r:
    Result<DownloadPlan, SessionError>)
    ensures
        r is Ok <==> open_session(registro@, (bus_number, address)) is Ok,
        r is Err ==> r->Err_0@ == open_session(registro@, (bus_number, address))->Err_0,
        r is Ok ==> {
            &&& r->Ok_0.buffer_len == size as usize
            &&& r->Ok_0.file_name@ == last_segment(src@)
            &&& r->Ok_0.reporter.spec_id() == DeviceId { bus_number, address }
            &&& r->Ok_0.reporter.spec_total() == size as usize
            &&& r->Ok_0.reporter.spec_last_reported() == size as usize
        },
{
    let id = DeviceId { bus_number, address };
    match obtener_dispositivo_abierto(registro, &id) {
        Err(e) => Err(e),
        Ok(_) => {
            let buffer_len: usize = #[verifier::truncate] (size as usize);
            Ok(
                DownloadPlan {
                    buffer_len,
                    reporter: crear_reporter_progreso(id, buffer_len),
                    file_name: nombre_de_descarga(src),
                },
            )
        },
    }
}

/// The path on the device of a file named `nombre` that is put into the
/// directory `dest`.
pub open spec fn upload_path(dest: Seq<char>, nombre: Seq<char>) -> Seq<char> {
    dest + seq!['/'] + nombre
}

/// The path on the device of a file named `nombre` that is put into the
/// directory `dest`.
pub fn ruta_de_subida(dest: &str, nombre: &str) -> (r: String)
    ensures
        r@ == upload_path(dest@, nombre@),
{
    let mut r = String::from_str(dest);
    push_char(&mut r, '/');
    r.append(nombre);
    r
}

/// What an upload needs: the path of the file on the device, and the reporter
/// of its progress.
#[derive(Clone, Debug, PartialEq, Eq)]
pub struct UploadPlan {
    pub ruta_completa: String,
    pub reporter: ProgressReporter,
}

/// The message of the failure to tell the name of a local file from its path.
pub open spec fn unnamed_file_message() -> Seq<char> {
    "No se pudo obtener el nombre del archivo"@
}

/// Prepares the upload of `len` bytes, read from a local file whose name is
/// `nombre`, into the directory `dest` of the device. Fails as
/// [`obtener_dispositivo_abierto`] does if the device has no open session,
/// and with `IOFailed` if the local path gave no file name.
pub fn upload_file(
    registro: &Registry,
    bus_number: u8,
    address: u8,
    nombre: Option<&str>,
    dest: &str,
    len: usize,
) -> (r: Result<UploadPlan, SessionError>)
    ensures
        r is Ok <==> open_session(registro@, (bus_number, address)) is Ok && nombre is Some,
        r is Err ==> r->Err_0@ == (if open_session(registro@, (bus_number, address)) is Err {
            open_session(registro@, (bus_number, address))->Err_0
        } else {
            SessionErrorView::IOFailed(unnamed_file_message())
        }),
        r is Ok ==> {
            &&& r->Ok_0.ruta_completa@ == upload_path(dest@, nombre->Some_0@)
            &&& r->Ok_0.reporter.spec_id() == DeviceId { bus_number, address }
            &&& r->Ok_0.reporter.spec_total() == len
            &&& r->Ok_0.reporter.spec_last_reported() == len
        },
{
    let id = DeviceId { bus_number, address };
    match obtener_dispositivo_abierto(registro, &id) {
        Err(e) => Err(e),
        Ok(_) => match nombre {
            None => Err(
                SessionError::IOFailed(
                    String::from_str("No se pudo obtener el nombre del archivo"),
                ),
            ),
            Some(n) => Ok(
                UploadPlan {
                    ruta_completa: ruta_de_subida(dest, n),
                    reporter: crear_reporter_progreso(id, len),
                },
            ),
        },
    }
}

/// Prepares the sending of an operating system image of `len` bytes to the
/// device: gives the reporter of its progress. Fails as
/// [`obtener_dispositivo_abierto`] does if the device has no open session.
pub fn upload_os(registro: &Registry, bus_number: u8, address: u8, len: usize) -> (r: Result<
    ProgressReporter,
    SessionError,
>)
    ensures
        r is Ok <==> open_session(registro@, (bus_number, address)) is Ok,
        r is Err ==> r->Err_0@ == open_session(registro@, (bus_number, address))->Err_0,
        r is Ok ==> {
            &&& r->Ok_0.spec_id() == DeviceId { bus_number, address }
            &&& r->Ok_0.spec_total() == len
            &&& r->Ok_0.spec_last_reported() == len
        },
{
    let id = DeviceId { bus_number, address };
    match obtener_dispositivo_abierto(registro, &id) {
        Err(e) => Err(e),
        Ok(_) => Ok(crear_reporter_progreso(id, len)),
    }
}

} // verus!
