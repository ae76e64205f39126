//! The values that travel to and from the command surface: device
//! identities, notifications, and the results of session operations.

use vstd::prelude::*;
use vstd::string::*;
use crate::registry::{Device, DeviceState, DeviceStateView, DeviceView, Registry};
use crate::usb::{is_supported, UsbDescriptor, UsbError, PID_CX2};

verus! {

/// Identity of an attached USB device: the bus it sits on and its address
/// there. It names a device only while that device stays connected.
#[derive(Clone, Copy, Debug, PartialEq, Eq, Structural, Hash)]
pub struct DeviceId {
    pub bus_number: u8,
    pub address: u8,
}

impl DeviceId {
    /// The key under which the registry holds the device.
    pub open spec fn spec_key(self) -> (u8, u8) {
        (self.bus_number, self.address)
    }

    /// The key under which the registry holds the device.
    #[verifier::when_used_as_spec(spec_key)]
    pub fn key(self) -> (k: (u8, u8))
        ensures
            k == self.spec_key(),
    {
        (self.bus_number, self.address)
    }

    /// The identity that a registry key stands for.
    pub open spec fn spec_from_key(k: (u8, u8)) -> DeviceId {
        DeviceId { bus_number: k.0, address: k.1 }
    }

    /// The identity that a registry key stands for.
    #[verifier::when_used_as_spec(spec_from_key)]
    pub fn from_key(k: (u8, u8)) -> (id: DeviceId)
        ensures
            id == DeviceId::spec_from_key(k),
    {
        DeviceId { bus_number: k.0, address: k.1 }
    }
}

/// Notification that a device was added to the registry.
#[derive(Clone, Debug, PartialEq, Eq)]
pub struct AddDevicePayload {
    pub id: DeviceId,
    pub name: String,
    pub is_cx_ii: bool,
    pub needs_drivers: bool,
}

/// The mathematical value of an [`AddDevicePayload`].
pub struct AddDevicePayloadView {
    pub id: DeviceId,
    pub name: Seq<char>,
    pub is_cx_ii: bool,
    pub needs_drivers: bool,
}

impl View for AddDevicePayload {
    type V = AddDevicePayloadView;

    open spec fn view(&self) -> AddDevicePayloadView {
        AddDevicePayloadView {
            id: self.id,
            name: self.name@,
            is_cx_ii: self.is_cx_ii,
            needs_drivers: self.needs_drivers,
        }
    }
}

/// Notification of the progress of a transfer.
#[derive(Clone, Copy, Debug, PartialEq, Eq, Structural)]
pub struct ProgressUpdate {
    pub id: DeviceId,
    pub remaining: usize,
    pub total: usize,
}

/// One entry of a directory listing, as the command surface gives it.
#[derive(Clone, Debug, PartialEq, Eq)]
pub struct FileInfo {
    pub path: String,
    pub is_dir: bool,
    pub date: u64,
    pub size: u64,
}

/// The mathematical value of a [`FileInfo`].
pub struct FileInfoView {
    pub path: Seq<char>,
    pub is_dir: bool,
    pub date: u64,
    pub size: u64,
}

impl View for FileInfo {
    type V = FileInfoView;

    open spec fn view(&self) -> FileInfoView {
        FileInfoView { path: self.path@, is_dir: self.is_dir, date: self.date, size: self.size }
    }
}

/// Free and total size of one kind of memory.
#[derive(Clone, Copy, Debug, PartialEq, Eq, Structural)]
pub struct MemoryInfo {
    pub free: u64,
    pub total: u64,
}

/// What the command surface tells of an open device.
#[derive(Clone, Debug, PartialEq, Eq)]
pub struct DeviceInfo {
    pub name: String,
    pub free_storage: u64,
    pub total_storage: u64,
    pub free_ram: u64,
    pub total_ram: u64,
    pub battery: u8,
    pub is_charging: bool,
    pub os_version: String,
    pub boot1_version: String,
    pub boot2_version: String,
    pub hw_type: u8,
    pub clock_speed: u8,
    pub lcd_width: u16,
    pub lcd_height: u16,
    pub lcd_bpp: u8,
    pub lcd_sample_mode: u8,
}

/// The mathematical value of a [`DeviceInfo`].
pub struct DeviceInfoView {
    pub name: Seq<char>,
    pub free_storage: u64,
    pub total_storage: u64,
    pub free_ram: u64,
    pub total_ram: u64,
    pub battery: u8,
    pub is_charging: bool,
    pub os_version: Seq<char>,
    pub boot1_version: Seq<char>,
    pub boot2_version: Seq<char>,
    pub hw_type: u8,
    pub clock_speed: u8,
    pub lcd_width: u16,
    pub lcd_height: u16,
    pub lcd_bpp: u8,
    pub lcd_sample_mode: u8,
}

impl View for DeviceInfo {
    type V = DeviceInfoView;

    open spec fn view(&self) -> DeviceInfoView {
        DeviceInfoView {
            name: self.name@,
            free_storage: self.free_storage,
            total_storage: self.total_storage,
            free_ram: self.free_ram,
            total_ram: self.total_ram,
            battery: self.battery,
            is_charging: self.is_charging,
            os_version: self.os_version@,
            boot1_version: self.boot1_version@,
            boot2_version: self.boot2_version@,
            hw_type: self.hw_type,
            clock_speed: self.clock_speed,
            lcd_width: self.lcd_width,
            lcd_height: self.lcd_height,
            lcd_bpp: self.lcd_bpp,
            lcd_sample_mode: self.lcd_sample_mode,
        }
    }
}

/// What an enumeration pass asks of its caller: the identities to announce as
/// removed, and the live devices still to be probed.
#[derive(Clone, Debug, PartialEq, Eq)]
pub struct EnumerationPlan {
    pub removed: Vec<DeviceId>,
    pub pending: Vec<(u8, u8)>,
}

/// The live identities that the map `m` does not hold, in the order of the
/// live list.
pub open spec fn pending(m: Map<(u8, u8), DeviceView>, vivos: Seq<(u8, u8)>) -> Seq<(u8, u8)> {
    vivos.filter(|k: (u8, u8)| !m.contains_key(k))
}

/// Whether `k` occurs in `claves`.
pub fn contiene(claves: &Vec<(u8, u8)>, k: (u8, u8)) -> (b: bool)
    ensures
        b == claves@.contains(k),
{
    let mut i: usize = 0;
    while i < claves.len()
        invariant
            i <= claves.len(),
            forall|j: int| 0 <= j < i ==> claves@[j] != k,
        decreases claves.len() - i,
    {
        if claves[i].0 == k.0 && claves[i].1 == k.1 {
            assert(claves@[i as int] == k);
            return true;
        }
        i += 1;
    }
    false
}

/// First half of an enumeration pass: reconciles the registry with the list
/// of live devices.
///
/// Every record whose identity is absent from `vivos` leaves the registry,
/// and its identity is returned in `removed`, once, to be announced. The
/// records of live devices stay as they are. `pending` lists, in the order of
/// `vivos`, the live identities that the registry does not know: the caller
/// probes them and hands the results to [`registrar_nuevos`].
pub fn enumerate(registro: &mut Registry, vivos: &Vec<(u8, u8)>) -> (plan: EnumerationPlan)
    requires
        old(registro).wf(),
    ensures
        final(registro).wf(),
        final(registro)@ == old(registro)@.restrict(vivos@.to_set()),
        plan.removed@.no_duplicates(),
        forall|id: DeviceId|
            plan.removed@.contains(id) <==> (old(registro)@.contains_key(id.spec_key())
                && !vivos@.contains(id.spec_key())),
        plan.pending@ == pending(final(registro)@, vivos@),
{
    let conocidos = registro.identities();
    let ghost inicial = registro@;
    let mut removed: Vec<DeviceId> = Vec::new();
    let mut i: usize = 0;
    while i < conocidos.len()
        invariant
            i <= conocidos.len(),
            conocidos@.no_duplicates(),
            forall|id: DeviceId| conocidos@.contains(id) <==> inicial.contains_key(id.spec_key()),
            registro.wf(),
            forall|k: (u8, u8)|
                registro@.contains_key(k) <==> (inicial.contains_key(k) && !(conocidos@.take(
                    i as int,
                ).contains(DeviceId::spec_from_key(k)) && !vivos@.contains(k))),
            forall|k: (u8, u8)| registro@.contains_key(k) ==> registro@[k] == inicial[k],
            removed@.no_duplicates(),
            forall|id: DeviceId|
                removed@.contains(id) <==> (conocidos@.take(i as int).contains(id)
                    && !vivos@.contains(id.spec_key())),
        decreases conocidos.len() - i,
    {
        let id = conocidos[i];
        let ghost antes = conocidos@.take(i as int);
        let ghost despues = conocidos@.take(i as int + 1);
        let ghost quitados = removed@;
        proof {
            assert(despues =~= antes.push(id));
            assert forall|x: DeviceId| despues.contains(x) <==> (antes.contains(x) || x == id) by {
                if antes.contains(x) {
                    let j = choose|j: int| 0 <= j < antes.len() && antes[j] == x;
                    assert(despues[j] == x);
                }
                if x == id {
                    assert(despues[i as int] == x);
                }
            }
            assert(!antes.contains(id)) by {
                if antes.contains(id) {
                    let j = choose|j: int| 0 <= j < antes.len() && antes[j] == id;
                    assert(conocidos@[j] == conocidos@[i as int]);
                }
            }
            assert(DeviceId::spec_from_key(id.spec_key()) == id);
        }
        if !contiene(vivos, id.key()) {
            let _ = registro.device_left(id.bus_number, id.address);
            removed.push(id);
            proof {
                assert forall|x: DeviceId| removed@.contains(x) <==> (quitados.contains(x) || x
                    == id) by {
                    if quitados.contains(x) {
                        let j = choose|j: int| 0 <= j < quitados.len() && quitados[j] == x;
                        assert(removed@[j] == x);
                    }
                    if x == id {
                        assert(removed@[quitados.len() as int] == x);
                    }
                    if removed@.contains(x) {
                        let j = choose|j: int| 0 <= j < removed@.len() && removed@[j] == x;
                        if j < quitados.len() {
                            assert(quitados[j] == x);
                        }
                    }
                }
                assert(removed@.no_duplicates()) by {
                    assert forall|a: int, b: int|
                        0 <= a < removed@.len() && 0 <= b < removed@.len() && a != b implies removed@[a]
                        != removed@[b] by {
                        if a < quitados.len() && b < quitados.len() {
                            assert(quitados[a] != quitados[b]);
                        } else if a < quitados.len() {
                            assert(quitados.contains(quitados[a]));
                        } else {
                            assert(quitados.contains(quitados[b]));
                        }
                    }
                }
            }
        }
        proof {
            assert forall|k: (u8, u8)|
                registro@.contains_key(k) <==> (inicial.contains_key(k) && !(despues.contains(
                    DeviceId::spec_from_key(k),
                ) && !vivos@.contains(k))) by {
                assert(DeviceId::spec_from_key(k).spec_key() == k);
            }
            assert forall|x: DeviceId|
                removed@.contains(x) <==> (despues.contains(x) && !vivos@.contains(
                    x.spec_key(),
                )) by {
                assert(quitados.contains(x) <==> (antes.contains(x) && !vivos@.contains(
                    x.spec_key(),
                )));
                assert(despues.contains(x) <==> (antes.contains(x) || x == id));
            }
        }
        i += 1;
    }
    proof {
        assert(conocidos@.take(i as int) =~= conocidos@);
        assert forall|k: (u8, u8)|
            registro@.contains_key(k) <==> (inicial.contains_key(k) && vivos@.contains(k)) by {
            assert(DeviceId::spec_from_key(k).spec_key() == k);
        }
        assert(registro@ =~= inicial.restrict(vivos@.to_set()));
    }
    let mut pendientes: Vec<(u8, u8)> = Vec::new();
    let mut j: usize = 0;
    while j < vivos.len()
        invariant
            j <= vivos.len(),
            pendientes@ == pending(registro@, vivos@.take(j as int)),
        decreases vivos.len() - j,
    {
        let k = vivos[j];
        proof {
            assert(vivos@.take(j as int + 1) =~= vivos@.take(j as int).push(k));
            vivos@.take(j as int).lemma_filter_push(k, |k: (u8, u8)| !registro@.contains_key(k));
        }
        if !registro.contains(k.0, k.1) {
            pendientes.push(k);
        }
        j += 1;
    }
    proof {
        assert(vivos@.take(j as int) =~= vivos@);
    }
    EnumerationPlan { removed, pending: pendientes }
}

/// The registry map after the probe results `hallazgos` were registered in
/// order: each device found is put under its identity as a closed record,
/// each failed probe is passed over.
pub open spec fn registered(
    m: Map<(u8, u8), DeviceView>,
    hallazgos: Seq<Result<((u8, u8), Device), UsbError>>,
) -> Map<(u8, u8), DeviceView>
    decreases hallazgos.len(),
{
    if hallazgos.len() == 0 {
        m
    } else {
        let previo = registered(m, hallazgos.drop_last());
        match hallazgos.last() {
            Ok(hallazgo) => previo.insert(hallazgo.0, hallazgo.1@.closed()),
            Err(_) => previo,
        }
    }
}

/// The notifications that registering `hallazgos` gives: one for each device
/// found, in order, and none for a failed probe.
pub open spec fn announced(hallazgos: Seq<Result<((u8, u8), Device), UsbError>>) -> Seq<
    AddDevicePayloadView,
>
    decreases hallazgos.len(),
{
    if hallazgos.len() == 0 {
        Seq::empty()
    } else {
        let previo = announced(hallazgos.drop_last());
        match hallazgos.last() {
            Ok(hallazgo) => previo.push(hallazgo.1@.payload(hallazgo.0)),
            Err(_) => previo,
        }
    }
}

/// The values of a sequence of notifications.
pub open spec fn payload_views(s: Seq<AddDevicePayload>) -> Seq<AddDevicePayloadView> {
    s.map_values(|p: AddDevicePayload| p@)
}

/// Second half of an enumeration pass: registers the devices that the probes
/// found. Each device found enters the registry closed and gives one
/// notification; a probe that failed, for whatever reason, is passed over
/// without a trace.
pub fn registrar_nuevos(
    registro: &mut Registry,
    hallazgos: &Vec<Result<((u8, u8), Device), UsbError>>,
) -> (avisos: Vec<AddDevicePayload>)
    requires
        old(registro).wf(),
    ensures
        final(registro).wf(),
        final(registro)@ == registered(old(registro)@, hallazgos@),
        payload_views(avisos@) == announced(hallazgos@),
{
    let mut avisos: Vec<AddDevicePayload> = Vec::new();
    let mut i: usize = 0;
    while i < hallazgos.len()
        invariant
            i <= hallazgos.len(),
            registro.wf(),
            registro@ == registered(old(registro)@, hallazgos@.take(i as int)),
            payload_views(avisos@) == announced(hallazgos@.take(i as int)),
        decreases hallazgos.len() - i,
    {
        proof {
            assert(hallazgos@.take(i as int + 1).drop_last() =~= hallazgos@.take(i as int));
        }
        let ghost previos = avisos@;
        match &hallazgos[i] {
            Ok(hallazgo) => {
                let nuevo = Device {
                    nombre: hallazgo.1.nombre.clone(),
                    estado: DeviceState::Closed,
                    necesita_drivers: hallazgo.1.necesita_drivers,
                    es_cx_ii: hallazgo.1.es_cx_ii,
                };
                let aviso = registro.registrar(hallazgo.0, nuevo);
                avisos.push(aviso);
                proof {
                    assert(payload_views(avisos@) =~= payload_views(previos).push(aviso@));
                }
            },
            Err(_) => {},
        }
        i += 1;
    }
    proof {
        assert(hallazgos@.take(i as int) =~= hallazgos@);
    }
    avisos
}

/// The name given to a calculator whose own name cannot be read: that of its
/// product line.
pub open spec fn fallback_name(pid: u16) -> Seq<char> {
    if pid == PID_CX2 {
        "TI-Nspire CX II"@
    } else {
        "TI-Nspire"@
    }
}

/// The name given to a calculator whose own name cannot be read: that of its
/// product line.
pub fn obtener_nombre_por_pid(pid: u16) -> (nombre: String)
    ensures
        nombre@ == fallback_name(pid),
{
    if pid == PID_CX2 {
        String::from_str("TI-Nspire CX II")
    } else {
        String::from_str("TI-Nspire")
    }
}

/// Where the probe of one USB device stands. The first four states each ask
/// the caller for one thing of the platform; the last two end the probe.
#[derive(Clone, Debug, PartialEq, Eq)]
pub enum ProbeState {
    /// The device descriptor is to be read.
    ReadDescriptor,
    /// The device is an accepted calculator and is to be opened.
    OpenDevice { product_id: u16 },
    /// The device is open and its string languages are to be read.
    ReadLanguages { product_id: u16 },
    /// The product string is to be read in the language `language`.
    ReadProductString { product_id: u16, language: u16 },
    /// The probe found a calculator.
    Found { nombre: String, necesita_drivers: bool, es_cx_ii: bool },
    /// The probe failed. `UsbError::Other` tells of a device that is no
    /// accepted calculator.
    Failed(UsbError),
}

/// The mathematical value of a [`ProbeState`].
pub enum ProbeStateView {
    ReadDescriptor,
    OpenDevice { product_id: u16 },
    ReadLanguages { product_id: u16 },
    ReadProductString { product_id: u16, language: u16 },
    Found { nombre: Seq<char>, necesita_drivers: bool, es_cx_ii: bool },
    Failed(UsbError),
}

impl View for ProbeState {
    type V = ProbeStateView;

    open spec fn view(&self) -> ProbeStateView {
        match self {
            ProbeState::ReadDescriptor => ProbeStateView::ReadDescriptor,
            ProbeState::OpenDevice { product_id } => ProbeStateView::OpenDevice {
                product_id: *product_id,
            },
            ProbeState::ReadLanguages { product_id } => ProbeStateView::ReadLanguages {
                product_id: *product_id,
            },
            ProbeState::ReadProductString { product_id, language } => {
                ProbeStateView::ReadProductString { product_id: *product_id, language: *language }
            },
            ProbeState::Found { nombre, necesita_drivers, es_cx_ii } => ProbeStateView::Found {
                nombre: nombre@,
                necesita_drivers: *necesita_drivers,
                es_cx_ii: *es_cx_ii,
            },
            ProbeState::Failed(e) => ProbeStateView::Failed(*e),
        }
    }
}

/// What the platform answered to the request of a probe.
#[derive(Debug, PartialEq, Eq)]
pub enum ProbeEvent {
    /// The outcome of reading the device descriptor.
    Descriptor(Result<UsbDescriptor, UsbError>),
    /// The outcome of opening the device.
    Opened(Result<(), UsbError>),
    /// The outcome of reading the string languages: their ids.
    Languages(Result<Vec<u16>, UsbError>),
    /// The outcome of reading the product string.
    ProductString(Result<String, UsbError>),
}

/// The mathematical value of a [`ProbeEvent`].
pub enum ProbeEventView {
    Descriptor(Result<UsbDescriptor, UsbError>),
    Opened(Result<(), UsbError>),
    Languages(Result<Seq<u16>, UsbError>),
    ProductString(Result<Seq<char>, UsbError>),
}

impl View for ProbeEvent {
    type V = ProbeEventView;

    open spec fn view(&self) -> ProbeEventView {
        match self {
            ProbeEvent::Descriptor(r) => ProbeEventView::Descriptor(*r),
            ProbeEvent::Opened(r) => ProbeEventView::Opened(*r),
            ProbeEvent::Languages(r) => ProbeEventView::Languages(
                match r {
                    Ok(idiomas) => Ok(idiomas@),
                    Err(e) => Err(*e),
                },
            ),
            ProbeEvent::ProductString(r) => ProbeEventView::ProductString(
                match r {
                    Ok(nombre) => Ok(nombre@),
                    Err(e) => Err(*e),
                },
            ),
        }
    }
}

/// The state of a probe that found the calculator of product `pid` without
/// reading its name.
pub open spec fn found_unnamed(pid: u16, necesita_drivers: bool) -> ProbeStateView {
    ProbeStateView::Found {
        nombre: fallback_name(pid),
        necesita_drivers,
        es_cx_ii: pid == PID_CX2,
    }
}

/// The state that follows `s` when the platform answers `e`.
///
/// A descriptor of another vendor or product ends the probe as no match,
/// before the device is touched. A device that cannot be opened for want of a
/// driver or of permission is found all the same, under the name of its
/// product line, and marked as needing a driver; any other failure ends the
/// probe with that failure. An open device is named by its product string in
/// the first language it offers, or by its product line if it offers none.
/// An answer that the state did not ask for changes nothing.
pub open spec fn probe_step(s: ProbeStateView, e: ProbeEventView) -> ProbeStateView {
    match s {
        ProbeStateView::ReadDescriptor => match e {
            ProbeEventView::Descriptor(Ok(d)) => if is_supported(d.vendor_id, d.product_id) {
                ProbeStateView::OpenDevice { product_id: d.product_id }
            } else {
                ProbeStateView::Failed(UsbError::Other)
            },
            ProbeEventView::Descriptor(Err(error)) => ProbeStateView::Failed(error),
            _ => s,
        },
        ProbeStateView::OpenDevice { product_id } => match e {
            ProbeEventView::Opened(Ok(_)) => ProbeStateView::ReadLanguages { product_id },
            ProbeEventView::Opened(Err(error)) => if error.spec_is_driver_problem() {
                found_unnamed(product_id, true)
            } else {
                ProbeStateView::Failed(error)
            },
            _ => s,
        },
        ProbeStateView::ReadLanguages { product_id } => match e {
            ProbeEventView::Languages(Ok(idiomas)) => if idiomas.len() > 0 {
                ProbeStateView::ReadProductString { product_id, language: idiomas[0] }
            } else {
                found_unnamed(product_id, false)
            },
            ProbeEventView::Languages(Err(error)) => ProbeStateView::Failed(error),
            _ => s,
        },
        ProbeStateView::ReadProductString { product_id, language } => match e {
            ProbeEventView::ProductString(Ok(nombre)) => ProbeStateView::Found {
                nombre,
                necesita_drivers: false,
                es_cx_ii: product_id == PID_CX2,
            },
            ProbeEventView::ProductString(Err(error)) => ProbeStateView::Failed(error),
            _ => s,
        },
        ProbeStateView::Found { .. } => s,
        ProbeStateView::Failed(_) => s,
    }
}

/// The state that a probe reaches from `s` when the platform gives the
/// answers `respuestas` one after the other.
pub open spec fn probe_run(s: ProbeStateView, respuestas: Seq<ProbeEventView>) -> ProbeStateView
    decreases respuestas.len(),
{
    if respuestas.len() == 0 {
        s
    } else {
        probe_step(probe_run(s, respuestas.drop_last()), respuestas.last())
    }
}

impl ProbeState {
    /// The state in which every probe starts.
    pub fn new() -> (s: ProbeState)
        ensures
            s@ == ProbeStateView::ReadDescriptor,
    {
        ProbeState::ReadDescriptor
    }

    /// Whether the probe has ended.
    pub fn finished(&self) -> (b: bool)
        ensures
            b == (self@ is Found || self@ is Failed),
    {
        match self {
            ProbeState::Found { .. } => true,
            ProbeState::Failed(_) => true,
            _ => false,
        }
    }

    /// Takes the platform's answer and gives the state that follows.
    pub fn avanzar(self, evento: ProbeEvent) -> (r: ProbeState)
        ensures
            r@ == probe_step(self@, evento@),
    {
        match self {
            ProbeState::ReadDescriptor => match evento {
                ProbeEvent::Descriptor(Ok(d)) => {
                    if d.is_supported() {
                        ProbeState::OpenDevice { product_id: d.product_id }
                    } else {
                        ProbeState::Failed(UsbError::Other)
                    }
                },
                ProbeEvent::Descriptor(Err(error)) => ProbeState::Failed(error),
                _ => ProbeState::ReadDescriptor,
            },
            ProbeState::OpenDevice { product_id } => match evento {
                ProbeEvent::Opened(Ok(_)) => ProbeState::ReadLanguages { product_id },
                ProbeEvent::Opened(Err(error)) => {
                    if error.is_driver_problem() {
                        ProbeState::Found {
                            nombre: obtener_nombre_por_pid(product_id),
                            necesita_drivers: true,
                            es_cx_ii: product_id == PID_CX2,
                        }
                    } else {
                        ProbeState::Failed(error)
                    }
                },
                _ => ProbeState::OpenDevice { product_id },
            },
            ProbeState::ReadLanguages { product_id } => match evento {
                ProbeEvent::Languages(Ok(idiomas)) => {
                    if idiomas.len() > 0 {
                        ProbeState::ReadProductString { product_id, language: idiomas[0] }
                    } else {
                        ProbeState::Found {
                            nombre: obtener_nombre_por_pid(product_id),
                            necesita_drivers: false,
                            es_cx_ii: product_id == PID_CX2,
                        }
                    }
                },
                ProbeEvent::Languages(Err(error)) => ProbeState::Failed(error),
                _ => ProbeState::ReadLanguages { product_id },
            },
            ProbeState::ReadProductString { product_id, language } => match evento {
                ProbeEvent::ProductString(Ok(nombre)) => ProbeState::Found {
                    nombre,
                    necesita_drivers: false,
                    es_cx_ii: product_id == PID_CX2,
                },
                ProbeEvent::ProductString(Err(error)) => ProbeState::Failed(error),
                _ => ProbeState::ReadProductString { product_id, language },
            },
            ProbeState::Found { nombre, necesita_drivers, es_cx_ii } => ProbeState::Found {
                nombre,
                necesita_drivers,
                es_cx_ii,
            },
            ProbeState::Failed(error) => ProbeState::Failed(error),
        }
    }
}

/// The record that a probe gives, if it has ended: the record of the
/// calculator it found, closed, or the failure.
pub open spec fn probe_outcome(s: ProbeStateView) -> Option<Result<DeviceView, UsbError>> {
    match s {
        ProbeStateView::Found { nombre, necesita_drivers, es_cx_ii } => Some(
            Ok(
                DeviceView {
                    nombre,
                    estado: DeviceStateView::Closed,
                    necesita_drivers,
                    es_cx_ii,
                },
            ),
        ),
        ProbeStateView::Failed(error) => Some(Err(error)),
        _ => None,
    }
}

/// What the probe of the device at `(bus_number, address)` gives: `None`
/// while the probe has not ended; the identity and the closed record of the
/// calculator it found; or the failure, which is `UsbError::Other` for a
/// device that is no accepted calculator.
pub fn agregar_dispositivo(bus_number: u8, address: u8, sondeo: ProbeState) -> (r: Option<
    Result<((u8, u8), Device), UsbError>,
>)
    ensures
        r is Some <==> probe_outcome(sondeo@) is Some,
        r is Some ==> (r->Some_0 is Ok <==> probe_outcome(sondeo@)->Some_0 is Ok),
        r is Some && r->Some_0 is Ok ==> {
            &&& r->Some_0->Ok_0.0 == (bus_number, address)
            &&& r->Some_0->Ok_0.1@ == probe_outcome(sondeo@)->Some_0->Ok_0
        },
        r is Some && r->Some_0 is Err ==> r->Some_0->Err_0 == probe_outcome(
            sondeo@,
        )->Some_0->Err_0,
{
    match sondeo {
        ProbeState::Found { nombre, necesita_drivers, es_cx_ii } => Some(
            Ok(
                (
                    (bus_number, address),
                    Device { nombre, estado: DeviceState::Closed, necesita_drivers, es_cx_ii },
                ),
            ),
        ),
        ProbeState::Failed(error) => Some(Err(error)),
        _ => None,
    }
}

} // verus!
