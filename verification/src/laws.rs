//! Laws of the registry: what holds of the operations taken together.
//!
//! Each law is stated over the mathematical functions that the contracts of
//! the operations use, and proved.

use vstd::prelude::*;
use crate::cmd::{
    announced, pending, probe_outcome, probe_run, registered, AddDevicePayloadView,
    ProbeEventView, ProbeStateView,
};
use crate::hotplug::{arrival_action, arrival_entries, arrival_run, ArrivalActionView, RetryPolicy};
use crate::link::InfoView;
use crate::progress::{report_run, should_report, threshold};
use crate::registry::{all_consistent, Device, DeviceView};
use crate::session::{after_close, after_open, open_refusal, SessionErrorView};
use crate::usb::{is_supported, UsbDescriptor, UsbError};

verus! {

/// A device whose descriptor is not that of an accepted calculator is no
/// match: its probe ends in the failure `UsbError::Other` with the
/// descriptor, and stays there whatever the platform answers afterwards.
pub proof fn law_unsupported_device_is_no_match(d: UsbDescriptor, respuestas: Seq<ProbeEventView>)
    requires
        !is_supported(d.vendor_id, d.product_id),
    ensures
        probe_run(
            ProbeStateView::ReadDescriptor,
            seq![ProbeEventView::Descriptor(Ok(d))] + respuestas,
        ) == ProbeStateView::Failed(UsbError::Other),
        probe_outcome(
            probe_run(
                ProbeStateView::ReadDescriptor,
                seq![ProbeEventView::Descriptor(Ok(d))] + respuestas,
            ),
        ) == Some(Err::<DeviceView, UsbError>(UsbError::Other)),
    decreases respuestas.len(),
{
    let primero = seq![ProbeEventView::Descriptor(Ok(d))];
    if respuestas.len() == 0 {
        assert(primero + respuestas =~= primero);
        assert(primero.drop_last() =~= Seq::<ProbeEventView>::empty());
        assert(probe_run(ProbeStateView::ReadDescriptor, primero.drop_last())
            == ProbeStateView::ReadDescriptor);
        assert(primero.last() == ProbeEventView::Descriptor(Ok(d)));
    } else {
        law_unsupported_device_is_no_match(d, respuestas.drop_last());
        assert((primero + respuestas).drop_last() =~= primero + respuestas.drop_last());
        assert((primero + respuestas).last() == respuestas.last());
    }
}

/// Probes that failed leave no trace: registering their outcomes changes
/// nothing in the registry and announces nothing.
pub proof fn law_failed_probes_change_nothing(
    m: Map<(u8, u8), DeviceView>,
    hallazgos: Seq<Result<((u8, u8), Device), UsbError>>,
)
    requires
        forall|i: int| 0 <= i < hallazgos.len() ==> hallazgos[i] is Err,
    ensures
        registered(m, hallazgos) == m,
        announced(hallazgos) == Seq::<AddDevicePayloadView>::empty(),
    decreases hallazgos.len(),
{
    if hallazgos.len() > 0 {
        law_failed_probes_change_nothing(m, hallazgos.drop_last());
        assert(hallazgos.last() is Err);
    }
}

/// The arrival of a device that is no accepted calculator is given up at
/// once, and the registry stays as it was.
pub proof fn law_no_match_arrival_changes_nothing(
    politica: RetryPolicy,
    m: Map<(u8, u8), DeviceView>,
    previos: int,
)
    ensures
        arrival_action(politica, previos, Err(UsbError::Other)) == ArrivalActionView::GiveUp,
        arrival_entries(m, Err(UsbError::Other)) == m,
{
}

/// Once a session is open, another attempt to open the device is refused
/// with `AlreadyOpen` and leaves the registry, and with it the session, as
/// it was.
pub proof fn law_second_open_is_refused(
    m: Map<(u8, u8), DeviceView>,
    k: (u8, u8),
    primera: InfoView,
    segunda: InfoView,
)
    requires
        open_refusal(m, k) is None,
    ensures
        open_refusal(after_open(m, k, primera), k) == Some(SessionErrorView::AlreadyOpen),
        after_open(after_open(m, k, primera), k, segunda) == after_open(m, k, primera),
{
}

/// Closing is idempotent: a device that is closed stays as it is when it is
/// closed again, and so does the whole registry.
pub proof fn law_close_is_idempotent(m: Map<(u8, u8), DeviceView>, k: (u8, u8))
    ensures
        after_close(after_close(m, k), k) == after_close(m, k),
        m.contains_key(k) && m[k].estado is Closed ==> after_close(m, k) == m,
{
    assert(after_close(after_close(m, k), k) =~= after_close(m, k));
    if m.contains_key(k) && m[k].estado is Closed {
        assert(m[k].closed() == m[k]);
        assert(after_close(m, k) =~= m);
    }
}

/// A record that needs a driver never has an open session: opening keeps
/// the invariant of the registry, and refuses such a record.
pub proof fn law_driver_required_stays_closed(
    m: Map<(u8, u8), DeviceView>,
    k: (u8, u8),
    info: InfoView,
)
    requires
        all_consistent(m),
    ensures
        all_consistent(after_open(m, k, info)),
        all_consistent(after_close(m, k)),
        m.contains_key(k) && m[k].necesita_drivers ==> after_open(m, k, info) == m,
{
    assert forall|j: (u8, u8)| after_open(m, k, info).contains_key(j) implies (
    #[trigger] after_open(m, k, info)[j]).consistent() by {
        if j != k {
            assert(m.contains_key(j));
            assert(m[j].consistent());
        } else if m.contains_key(k) {
            assert(m[k].consistent());
        }
    }
    assert forall|j: (u8, u8)| after_close(m, k).contains_key(j) implies (#[trigger] after_close(
        m,
        k,
    )[j]).consistent() by {
        if j != k {
            assert(m.contains_key(j));
            assert(m[j].consistent());
        }
    }
    if m.contains_key(k) && m[k].necesita_drivers {
        assert(m[k].consistent());
    }
}

/// Opening and closing touch nothing but the state of the one record: its
/// name and its flags stay, and so does every other record.
pub proof fn law_sessions_keep_the_records(
    m: Map<(u8, u8), DeviceView>,
    k: (u8, u8),
    info: InfoView,
    j: (u8, u8),
)
    ensures
        after_open(m, k, info).contains_key(j) == m.contains_key(j),
        after_close(m, k).contains_key(j) == m.contains_key(j),
        m.contains_key(j) ==> {
            &&& after_open(m, k, info)[j].nombre == m[j].nombre
            &&& after_open(m, k, info)[j].necesita_drivers == m[j].necesita_drivers
            &&& after_open(m, k, info)[j].es_cx_ii == m[j].es_cx_ii
            &&& after_close(m, k)[j].nombre == m[j].nombre
            &&& after_close(m, k)[j].necesita_drivers == m[j].necesita_drivers
            &&& after_close(m, k)[j].es_cx_ii == m[j].es_cx_ii
        },
        m.contains_key(j) && j != k ==> after_open(m, k, info)[j] == m[j] && after_close(m, k)[j]
            == m[j],
{
}

/// A key is in the registry after a registration exactly if it was there
/// before or a device was found under it, and the records of other keys
/// stay.
proof fn lemma_registered_keys(
    m: Map<(u8, u8), DeviceView>,
    hallazgos: Seq<Result<((u8, u8), Device), UsbError>>,
    k: (u8, u8),
)
    ensures
        registered(m, hallazgos).contains_key(k) <==> (m.contains_key(k) || exists|i: int|
            0 <= i < hallazgos.len() && (#[trigger] hallazgos[i]) is Ok && hallazgos[i]->Ok_0.0
                == k),
    decreases hallazgos.len(),
{
    if hallazgos.len() > 0 {
        let previos = hallazgos.drop_last();
        lemma_registered_keys(m, previos, k);
        let n = hallazgos.len() - 1;
        if registered(m, hallazgos).contains_key(k) && !m.contains_key(k) {
            if registered(m, previos).contains_key(k) {
                let i = choose|i: int|
                    0 <= i < previos.len() && (#[trigger] previos[i]) is Ok && previos[i]->Ok_0.0
                        == k;
                assert(hallazgos[i] == previos[i]);
            } else {
                assert(hallazgos[n] is Ok && hallazgos[n]->Ok_0.0 == k);
            }
        }
        if exists|i: int|
            0 <= i < hallazgos.len() && (#[trigger] hallazgos[i]) is Ok && hallazgos[i]->Ok_0.0
                == k {
            let i = choose|i: int|
                0 <= i < hallazgos.len() && (#[trigger] hallazgos[i]) is Ok
                    && hallazgos[i]->Ok_0.0 == k;
            if i < n {
                assert(previos[i] == hallazgos[i]);
            }
        }
    }
}

/// An enumeration pass is idempotent while the live devices stay the same.
///
/// Take a first pass over the live list `vivos`, in which every pending
/// device is probed, `sondeo` telling what the probe of each identity gives,
/// and the outcomes are registered. A second pass over the same list then
/// removes no record, finds only failed probes among its pending devices, and
/// so announces nothing and leaves the registry as the first pass left it.
pub proof fn law_enumeration_is_idempotent(
    m: Map<(u8, u8), DeviceView>,
    vivos: Seq<(u8, u8)>,
    sondeo: spec_fn((u8, u8)) -> Result<((u8, u8), Device), UsbError>,
)
    requires
        forall|k: (u8, u8)| (#[trigger] sondeo(k)) is Ok ==> sondeo(k)->Ok_0.0 == k,
    ensures
        ({
            let primera = registered(
                m.restrict(vivos.to_set()),
                pending(m.restrict(vivos.to_set()), vivos).map_values(sondeo),
            );
            let pendientes = pending(primera.restrict(vivos.to_set()), vivos);
            &&& primera.restrict(vivos.to_set()) == primera
            &&& forall|k: (u8, u8)| primera.contains_key(k) ==> vivos.contains(k)
            &&& announced(pendientes.map_values(sondeo)) == Seq::<AddDevicePayloadView>::empty()
            &&& registered(primera.restrict(vivos.to_set()), pendientes.map_values(sondeo))
                == primera
        }),
{
    let vivo = vivos.to_set();
    let m1 = m.restrict(vivo);
    let desconocido1 = |k: (u8, u8)| !m1.contains_key(k);
    let p1 = vivos.filter(desconocido1);
    assert(p1 == pending(m1, vivos));
    let h1 = p1.map_values(sondeo);
    let primera = registered(m1, h1);
    assert forall|k: (u8, u8)| primera.contains_key(k) implies vivos.contains(k) by {
        lemma_registered_keys(m1, h1, k);
        if !m1.contains_key(k) {
            let i = choose|i: int|
                0 <= i < h1.len() && (#[trigger] h1[i]) is Ok && h1[i]->Ok_0.0 == k;
            assert(h1[i] == sondeo(p1[i]));
            assert(p1[i] == k);
            assert(p1.contains(k));
            vivos.lemma_filter_contains_rev(desconocido1, k);
        }
    }
    assert(primera.restrict(vivo) =~= primera);
    let desconocido2 = |k: (u8, u8)| !primera.contains_key(k);
    let p2 = vivos.filter(desconocido2);
    assert(p2 == pending(primera, vivos));
    let h2 = p2.map_values(sondeo);
    assert forall|j: int| 0 <= j < h2.len() implies h2[j] is Err by {
        let k = p2[j];
        vivos.lemma_filter_pred(desconocido2, j);
        assert(!primera.contains_key(k));
        assert(p2.contains(k));
        vivos.lemma_filter_contains_rev(desconocido2, k);
        lemma_registered_keys(m1, h1, k);
        if sondeo(k) is Ok {
            let a = choose|a: int| 0 <= a < vivos.len() && vivos[a] == k;
            assert(desconocido1(vivos[a]));
            vivos.lemma_filter_contains(desconocido1, a);
            let i = choose|i: int| 0 <= i < p1.len() && p1[i] == k;
            assert(h1[i] == sondeo(k));
            assert(h1[i] is Ok && h1[i]->Ok_0.0 == k);
        }
    }
    law_failed_probes_change_nothing(primera, h2);
}

/// The arrival of a device announces it at most once, however often its
/// probe is repeated.
pub proof fn law_arrival_announces_at_most_once(
    politica: RetryPolicy,
    m: Map<(u8, u8), DeviceView>,
    hallazgos: Seq<Result<((u8, u8), Device), UsbError>>,
    previos: int,
)
    ensures
        arrival_run(politica, m, hallazgos, previos).1.len() <= 1,
    decreases hallazgos.len(),
{
    if hallazgos.len() > 0 {
        law_arrival_announces_at_most_once(politica, m, hallazgos.drop_first(), previos + 1);
    }
}

/// A device that is busy for its first `ocupados` probes and then found is
/// registered, once, and announced, once, as long as the policy allows that
/// many attempts.
pub proof fn law_busy_then_found_registers_once(
    politica: RetryPolicy,
    m: Map<(u8, u8), DeviceView>,
    hallazgos: Seq<Result<((u8, u8), Device), UsbError>>,
    previos: int,
    ocupados: int,
)
    requires
        0 <= previos,
        0 <= ocupados < hallazgos.len(),
        previos + ocupados < politica.max_attempts,
        forall|i: int| 0 <= i < ocupados ==> hallazgos[i] == Err::<((u8, u8), Device), UsbError>(
            UsbError::Busy,
        ),
        hallazgos[ocupados] is Ok,
    ensures
        arrival_run(politica, m, hallazgos, previos) == (
            m.insert(hallazgos[ocupados]->Ok_0.0, hallazgos[ocupados]->Ok_0.1@.closed()),
            seq![hallazgos[ocupados]->Ok_0.1@.payload(hallazgos[ocupados]->Ok_0.0)],
        ),
    decreases ocupados,
{
    if ocupados > 0 {
        let resto = hallazgos.drop_first();
        assert(hallazgos[0] == Err::<((u8, u8), Device), UsbError>(UsbError::Busy));
        assert forall|i: int| 0 <= i < ocupados - 1 implies resto[i] == Err::<
            ((u8, u8), Device),
            UsbError,
        >(UsbError::Busy) by {
            assert(resto[i] == hallazgos[i + 1]);
        }
        assert(resto[ocupados - 1] == hallazgos[ocupados]);
        law_busy_then_found_registers_once(politica, m, resto, previos + 1, ocupados - 1);
    }
}

/// Throttling bounds the notifications of a transfer, however finely it
/// reports: those that tell of bytes still remaining each account for at
/// least one threshold of progress, so that there are fewer than 200 of them.
pub proof fn law_progress_is_throttled(ultimo: usize, total: usize, reportes: Seq<usize>)
    ensures
        report_run(ultimo, total, reportes).1.filter(|r: usize| r != 0).len() * threshold(total)
            + report_run(ultimo, total, reportes).0 <= ultimo,
        ultimo <= total ==> report_run(ultimo, total, reportes).1.filter(|r: usize| r != 0).len()
            < 200,
    decreases reportes.len(),
{
    let pendiente = |r: usize| r != 0;
    let umbral = threshold(total) as int;
    if reportes.len() == 0 {
        assert(report_run(ultimo, total, reportes).1.filter(pendiente).len() == 0) by {
            Seq::<usize>::empty().lemma_filter_len(pendiente);
        }
    } else {
        law_progress_is_throttled(ultimo, total, reportes.drop_last());
        let previo = report_run(ultimo, total, reportes.drop_last());
        let r = reportes.last();
        let antes = previo.1.filter(pendiente).len() as int;
        if should_report(previo.0, total, r) {
            previo.1.lemma_filter_push(r, pendiente);
            if r != 0 {
                assert((antes + 1) * umbral == antes * umbral + umbral) by (nonlinear_arith);
            }
        }
    }
    let n = report_run(ultimo, total, reportes).1.filter(pendiente).len() as int;
    if ultimo <= total {
        assert(n * umbral <= total);
        if total >= 100 {
            assert(total < 200 * umbral);
            assert(n < 200) by (nonlinear_arith)
                requires
                    n * umbral <= total,
                    total < 200 * umbral,
                    umbral >= 1,
            ;
        } else {
            assert(umbral == 1);
            assert(n * 1 == n) by (nonlinear_arith);
        }
    }
}

} // verus!
