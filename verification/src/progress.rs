//! Throttled progress reporting for long transfers.
//!
//! A transfer tells how many bytes remain, often many times a second. A
//! [`ProgressReporter`] passes on only the steps that matter: those that
//! bring the remaining count down by at least one hundredth of the total
//! since the last notification, and any that reach zero.

use vstd::prelude::*;
use crate::cmd::{DeviceId, ProgressUpdate};

verus! {

/// The least decrease worth a notification: one hundredth of `total`, and at
/// least one byte.
pub open spec fn threshold(total: usize) -> usize {
    if total / 100 >= 1 {
        total / 100
    } else {
        1
    }
}

/// Whether a report of `restante` bytes remaining is passed on, when the last
/// notification of a transfer of `total` bytes told of `ultimo` remaining.
pub open spec fn should_report(ultimo: usize, total: usize, restante: usize) -> bool {
    restante == 0 || (ultimo >= restante && ultimo - restante >= threshold(total))
}

/// What a reporter does with the reports `reportes`, taken one after the
/// other, when its last notification told of `ultimo` remaining: the
/// remaining count of its last notification afterwards, and the remaining
/// counts that it passed on, in order.
pub open spec fn report_run(ultimo: usize, total: usize, reportes: Seq<usize>) -> (usize, Seq<usize>)
    decreases reportes.len(),
{
    if reportes.len() == 0 {
        (ultimo, Seq::empty())
    } else {
        let previo = report_run(ultimo, total, reportes.drop_last());
        if should_report(previo.0, total, reportes.last()) {
            (reportes.last(), previo.1.push(reportes.last()))
        } else {
            previo
        }
    }
}

/// The progress of one transfer. One reporter serves one operation.
#[derive(Clone, Copy, Debug, PartialEq, Eq)]
pub struct ProgressReporter {
    id: DeviceId,
    total: usize,
    umbral: usize,
    ultimo_reportado: usize,
}

impl ProgressReporter {
    #[verifier::type_invariant]
    spec fn holds_threshold(self) -> bool {
        self.umbral == threshold(self.total)
    }

    /// The device whose transfer is reported.
    pub closed spec fn spec_id(self) -> DeviceId {
        self.id
    }

    /// The size of the transfer.
    pub closed spec fn spec_total(self) -> usize {
        self.total
    }

    /// The remaining count that the last notification told, or the total
    /// while there was none.
    pub closed spec fn spec_last_reported(self) -> usize {
        self.ultimo_reportado
    }

    /// The device whose transfer is reported.
    #[verifier::when_used_as_spec(spec_id)]
    pub fn id(self) -> (r: DeviceId)
        ensures
            r == self.spec_id(),
    {
        self.id
    }

    /// The size of the transfer.
    #[verifier::when_used_as_spec(spec_total)]
    pub fn total(self) -> (r: usize)
        ensures
            r == self.spec_total(),
    {
        self.total
    }

    /// The remaining count that the last notification told, or the total
    /// while there was none.
    #[verifier::when_used_as_spec(spec_last_reported)]
    pub fn last_reported(self) -> (r: usize)
        ensures
            r == self.spec_last_reported(),
    {
        self.ultimo_reportado
    }

    /// The least decrease that is passed on.
    pub fn umbral(self) -> (r: usize)
        ensures
            r == threshold(self.spec_total()),
    {
        proof {
            use_type_invariant(self);
        }
        self.umbral
    }

    /// Takes one report of the transfer: `restante` bytes remain. Returns the
    /// notification to send, if the report is worth one, and remembers it.
    /// A report that is not passed on changes nothing.
    pub fn reportar(&mut self, restante: usize) -> (r: Option<ProgressUpdate>)
        ensures
            final(self).spec_id() == old(self).spec_id(),
            final(self).spec_total() == old(self).spec_total(),
            restante == 0 ==> r is Some,
            r == (if should_report(
                old(self).spec_last_reported(),
                old(self).spec_total(),
                restante,
            ) {
                Some(
                    ProgressUpdate {
                        id: old(self).spec_id(),
                        remaining: restante,
                        total: old(self).spec_total(),
                    },
                )
            } else {
                None
            }),
            final(self).spec_last_reported() == (if r is Some {
                restante
            } else {
                old(self).spec_last_reported()
            }),
    {
        proof {
            use_type_invariant(&*self);
        }
        let diferencia = if self.ultimo_reportado >= restante {
            self.ultimo_reportado - restante
        } else {
            0
        };
        if diferencia >= self.umbral || restante == 0 {
            self.ultimo_reportado = restante;
            Some(ProgressUpdate { id: self.id, remaining: restante, total: self.total })
        } else {
            None
        }
    }
}

/// A reporter for a transfer of `total` bytes to or from the device `id`.
/// Nothing was reported yet: the whole transfer remains.
pub fn crear_reporter_progreso(id: DeviceId, total: usize) -> (r: ProgressReporter)
    ensures
        r.spec_id() == id,
        r.spec_total() == total,
        r.spec_last_reported() == total,
{
    let centesima = total / 100;
    let umbral = if centesima >= 1 {
        centesima
    } else {
        1
    };
    ProgressReporter { id, total, umbral, ultimo_reportado: total }
}

} // verus!
