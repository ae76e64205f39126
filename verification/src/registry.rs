//! The table of known devices.
//!
//! A [`Registry`] maps the identity of each attached calculator to its
//! [`Device`] record. Its mathematical value is a map from `(bus, address)`
//! to the value of the record. A record whose device needs a driver is never
//! in the open state: that is the registry's invariant, [`Registry::wf`].

use vstd::prelude::*;
use crate::cmd::{AddDevicePayload, AddDevicePayloadView, DeviceId};
use crate::link::{Info, InfoView};

verus! {

/// The connection state of a device: closed, or open with the information
/// snapshot taken when the session was opened.
#[derive(Clone, Debug, PartialEq, Eq)]
pub enum DeviceState {
    Open(Info),
    Closed,
}

/// The mathematical value of a [`DeviceState`].
pub enum DeviceStateView {
    Open(InfoView),
    Closed,
}

impl View for DeviceState {
    type V = DeviceStateView;

    open spec fn view(&self) -> DeviceStateView {
        match self {
            DeviceState::Open(info) => DeviceStateView::Open(info@),
            DeviceState::Closed => DeviceStateView::Closed,
        }
    }
}

/// The record of one attached calculator.
#[derive(Clone, Debug, PartialEq, Eq)]
pub struct Device {
    pub nombre: String,
    pub estado: DeviceState,
    pub necesita_drivers: bool,
    pub es_cx_ii: bool,
}

/// The mathematical value of a [`Device`].
pub struct DeviceView {
    pub nombre: Seq<char>,
    pub estado: DeviceStateView,
    pub necesita_drivers: bool,
    pub es_cx_ii: bool,
}

impl View for Device {
    type V = DeviceView;

    open spec fn view(&self) -> DeviceView {
        DeviceView {
            nombre: self.nombre@,
            estado: self.estado@,
            necesita_drivers: self.necesita_drivers,
            es_cx_ii: self.es_cx_ii,
        }
    }
}

impl DeviceView {
    /// The record with its session closed.
    pub open spec fn closed(self) -> DeviceView {
        DeviceView { estado: DeviceStateView::Closed, ..self }
    }

    /// The record with a session open on the snapshot `info`.
    pub open spec fn opened(self, info: InfoView) -> DeviceView {
        DeviceView { estado: DeviceStateView::Open(info), ..self }
    }

    /// A record that needs a driver is closed.
    pub open spec fn consistent(self) -> bool {
        self.necesita_drivers ==> self.estado is Closed
    }

    /// The notification that announces the record under the key `k`.
    pub open spec fn payload(self, k: (u8, u8)) -> AddDevicePayloadView {
        AddDevicePayloadView {
            id: DeviceId::spec_from_key(k),
            name: self.nombre,
            is_cx_ii: self.es_cx_ii,
            needs_drivers: self.necesita_drivers,
        }
    }
}

impl Device {
    /// The notification that announces the device under the key `k`.
    pub fn payload(&self, k: (u8, u8)) -> (p: AddDevicePayload)
        ensures
            p@ == self@.payload(k),
    {
        AddDevicePayload {
            id: DeviceId::from_key(k),
            name: self.nombre.clone(),
            is_cx_ii: self.es_cx_ii,
            needs_drivers: self.necesita_drivers,
        }
    }
}

/// The hash table behind the registry: a `hashbrown::HashMap` from
/// `(bus, address)` to the device's record.
#[verifier::external_body]
pub struct Table {
    inner: hashbrown::HashMap<(u8, u8), Device>,
}

/// What a [`Table`] holds: for each key in it, the value of its record.
pub uninterp spec fn table_entries(t: Table) -> Map<(u8, u8), DeviceView>;

/// `hashbrown::HashMap::new`: a table that holds nothing.
#[verifier::external_body]
pub(crate) fn table_new() -> (t: Table)
    ensures
        table_entries(t).dom() == Set::<(u8, u8)>::empty(),
{
    Table { inner: hashbrown::HashMap::new() }
}

/// `hashbrown::HashMap::get`: the record under `k`, if the table holds one.
#[verifier::external_body]
pub(crate) fn table_get(t: &Table, k: (u8, u8)) -> (r: Option<&Device>)
    ensures
        r is Some <==> table_entries(*t).contains_key(k),
        r is Some ==> r->Some_0@ == table_entries(*t)[k],
{
    t.inner.get(&k)
}

/// `hashbrown::HashMap::contains_key`: whether the table holds a record
/// under `k`.
#[verifier::external_body]
pub(crate) fn table_contains(t: &Table, k: (u8, u8)) -> (b: bool)
    ensures
        b == table_entries(*t).contains_key(k),
{
    t.inner.contains_key(&k)
}

/// `hashbrown::HashMap::insert`: puts `v` under `k`, replacing the record
/// that was there, and returns the replaced record, if there was one.
#[verifier::external_body]
pub(crate) fn table_insert(t: &mut Table, k: (u8, u8), v: Device) -> (r: Option<Device>)
    ensures
        table_entries(*final(t)) == table_entries(*old(t)).insert(k, v@),
        r is Some <==> table_entries(*old(t)).contains_key(k),
        r is Some ==> r->Some_0@ == table_entries(*old(t))[k],
{
    t.inner.insert(k, v)
}

/// `hashbrown::HashMap::remove`: takes the record under `k` out of the table
/// and returns it, if there was one; other records stay.
#[verifier::external_body]
pub(crate) fn table_remove(t: &mut Table, k: (u8, u8)) -> (r: Option<Device>)
    ensures
        table_entries(*final(t)) == table_entries(*old(t)).remove(k),
        r is Some <==> table_entries(*old(t)).contains_key(k),
        r is Some ==> r->Some_0@ == table_entries(*old(t))[k],
{
    t.inner.remove(&k)
}

/// `hashbrown::HashMap::get_mut`: a mutable reference to the record under
/// `k`, if the table holds one. What is written through it becomes the record
/// under `k`; nothing else changes.
#[verifier::external_body]
pub(crate) fn table_get_mut(t: &mut Table, k: (u8, u8)) -> (r: Option<&mut Device>)
    ensures
        r is Some <==> table_entries(*old(t)).contains_key(k),
        r is Some ==> (*r->Some_0)@ == table_entries(*old(t))[k],
        r is Some ==> table_entries(*final(t)) == table_entries(*old(t)).insert(
            k,
            (*final(r->Some_0))@,
        ),
        r is None ==> table_entries(*final(t)) == table_entries(*old(t)),
{
    t.inner.get_mut(&k)
}

/// `hashbrown::HashMap::keys`: every key of the table, each once, in an order
/// that the table does not promise.
#[verifier::external_body]
pub(crate) fn table_keys(t: &Table) -> (r: Vec<(u8, u8)>)
    ensures
        r@.no_duplicates(),
        forall|k: (u8, u8)| r@.contains(k) <==> table_entries(*t).contains_key(k),
{
    t.inner.keys().copied().collect()
}

/// The table of known devices, keyed by `(bus, address)`.
pub struct Registry {
    pub(crate) tabla: Table,
}

impl View for Registry {
    type V = Map<(u8, u8), DeviceView>;

    closed spec fn view(&self) -> Map<(u8, u8), DeviceView> {
        table_entries(self.tabla)
    }
}

/// Every record of `m` that needs a driver is closed.
pub open spec fn all_consistent(m: Map<(u8, u8), DeviceView>) -> bool {
    forall|k: (u8, u8)| m.contains_key(k) ==> (#[trigger] m[k]).consistent()
}

impl Registry {
    /// The invariant of the registry: a record that needs a driver is closed.
    /// [`Registry::new`] establishes it and every operation keeps it.
    pub open spec fn wf(&self) -> bool {
        all_consistent(self@)
    }

    /// A registry that knows no device.
    pub fn new() -> (r: Registry)
        ensures
            r@ == Map::<(u8, u8), DeviceView>::empty(),
            r.wf(),
    {
        let tabla = table_new();
        assert(table_entries(tabla) =~= Map::<(u8, u8), DeviceView>::empty());
        Registry { tabla }
    }

    /// Whether the registry knows the device `(bus_number, address)`.
    pub fn contains(&self, bus_number: u8, address: u8) -> (b: bool)
        ensures
            b == self@.contains_key((bus_number, address)),
    {
        table_contains(&self.tabla, (bus_number, address))
    }

    /// The record of the device `(bus_number, address)`, if the registry
    /// knows it. A record that needs a driver is closed.
    pub fn get(&self, bus_number: u8, address: u8) -> (r: Option<&Device>)
        ensures
            r is Some <==> self@.contains_key((bus_number, address)),
            r is Some ==> r->Some_0@ == self@[(bus_number, address)],
    {
        table_get(&self.tabla, (bus_number, address))
    }

    /// The identities of the devices that the registry knows, each once, in
    /// no particular order.
    pub fn identities(&self) -> (r: Vec<DeviceId>)
        ensures
            r@.no_duplicates(),
            forall|id: DeviceId| r@.contains(id) <==> self@.contains_key(id.spec_key()),
    {
        let keys = table_keys(&self.tabla);
        let mut r: Vec<DeviceId> = Vec::new();
        let mut i: usize = 0;
        while i < keys.len()
            invariant
                i <= keys.len(),
                r.len() == i,
                forall|j: int| 0 <= j < i ==> r@[j] == DeviceId::spec_from_key(#[trigger] keys@[j]),
            decreases keys.len() - i,
        {
            r.push(DeviceId::from_key(keys[i]));
            i += 1;
        }
        proof {
            assert forall|a: int, b: int| 0 <= a < r@.len() && 0 <= b < r@.len() && a != b implies r@[a] != r@[b] by {
                assert(keys@[a] != keys@[b]);
            }
            assert forall|id: DeviceId| r@.contains(id) <==> self@.contains_key(id.spec_key()) by {
                if r@.contains(id) {
                    let j = choose|j: int| 0 <= j < r@.len() && r@[j] == id;
                    assert(keys@[j] == id.spec_key());
                    assert(keys@.contains(id.spec_key()));
                }
                if self@.contains_key(id.spec_key()) {
                    assert(keys@.contains(id.spec_key()));
                    let j = choose|j: int| 0 <= j < keys@.len() && keys@[j] == id.spec_key();
                    assert(r@[j] == id);
                }
            }
        }
        r
    }

    /// Registers a newly discovered device under `key`, replacing any record
    /// that was there. A new record starts closed, whatever state `device`
    /// carries. Returns the notification that announces the device.
    pub fn registrar(&mut self, key: (u8, u8), device: Device) -> (p: AddDevicePayload)
        requires
            old(self).wf(),
        ensures
            final(self).wf(),
            final(self)@ == old(self)@.insert(key, device@.closed()),
            p@ == device@.payload(key),
    {
        let p = device.payload(key);
        let nuevo = Device {
            nombre: device.nombre,
            estado: DeviceState::Closed,
            necesita_drivers: device.necesita_drivers,
            es_cx_ii: device.es_cx_ii,
        };
        let _ = table_insert(&mut self.tabla, key, nuevo);
        p
    }

    /// Puts the record under `key` into the state `estado` and tells whether
    /// there was such a record. Without one, nothing changes.
    pub(crate) fn poner_estado(&mut self, key: (u8, u8), estado: DeviceState) -> (b: bool)
        requires
            old(self).wf(),
            old(self)@.contains_key(key) && old(self)@[key].necesita_drivers ==> estado@ is Closed,
        ensures
            final(self).wf(),
            b == old(self)@.contains_key(key),
            final(self)@ == (if b {
                old(self)@.insert(key, DeviceView { estado: estado@, ..old(self)@[key] })
            } else {
                old(self)@
            }),
    {
        match table_get_mut(&mut self.tabla, key) {
            Some(dispositivo) => {
                dispositivo.estado = estado;
                true
            },
            None => false,
        }
    }

    /// Forgets the device `(bus_number, address)`. Returns the identity to
    /// announce as removed if the registry knew the device, and `None` if it
    /// did not; then nothing changes.
    pub fn device_left(&mut self, bus_number: u8, address: u8) -> (r: Option<DeviceId>)
        requires
            old(self).wf(),
        ensures
            final(self).wf(),
            final(self)@ == old(self)@.remove((bus_number, address)),
            r == (if old(self)@.contains_key((bus_number, address)) {
                Some(DeviceId { bus_number, address })
            } else {
                None
            }),
    {
        match table_remove(&mut self.tabla, (bus_number, address)) {
            Some(_) => Some(DeviceId { bus_number, address }),
            None => None,
        }
    }
}

} // verus!
