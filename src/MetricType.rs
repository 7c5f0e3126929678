//! The three metric kinds as types, for use as bounds: `Metric<Count>`,
//! `MetricName<Gauge>`, `registry.register_metric::<TimingCount>(..)`.
use vstd::prelude::*;

use crate::instrument::{self, Instrument, InstrumentKind, kind_name};

verus! {

/// Implemented by the three kind types of this module only.
pub trait Impl: Sized {
    spec fn spec_kind() -> InstrumentKind;

    fn kind() -> (r: InstrumentKind)
        ensures
            r == Self::spec_kind(),
    ;

    /// The kind's name: `"count"`, `"gauge"` or `"timing_count"`.
    fn name() -> (r: String)
        ensures
            r@ == kind_name(Self::spec_kind()),
    ;
}

/// Makes and recovers the handle type of a kind.
pub trait MakeInstrument: Impl {
    type InstrumentType;

    /// The stored form of a handle.
    spec fn spec_erase(h: Self::InstrumentType) -> Instrument;

    /// Distinct handles have distinct stored forms.
    proof fn lemma_erase_injective(a: Self::InstrumentType, b: Self::InstrumentType)
        ensures
            Self::spec_erase(a) == Self::spec_erase(b) ==> a == b,
    ;

    /// A fresh handle on new cells.
    fn make_instrument() -> (r: Self::InstrumentType)
        ensures
            Self::spec_erase(r).kind() == Self::spec_kind(),
    ;

    /// The stored form of `h`, sharing its cells.
    fn erase(h: &Self::InstrumentType) -> (r: Instrument)
        ensures
            r == Self::spec_erase(*h),
            r.kind() == Self::spec_kind(),
    ;

    /// The handle inside `i`, sharing its cells, where `i` is of this kind.
    fn recover(i: &Instrument) -> (r: Option<Self::InstrumentType>)
        ensures
            r is Some <==> i.kind() == Self::spec_kind(),
            r matches Some(h) ==> Self::spec_erase(h) == *i,
    ;
}

/// The count kind. Verus needs an inhabited type, hence the one variant.
#[derive(Clone, Copy)]
pub enum Count {
    Kind,
}

/// The gauge kind. Verus needs an inhabited type, hence the one variant.
#[derive(Clone, Copy)]
pub enum Gauge {
    Kind,
}

/// The timing count kind. Verus needs an inhabited type, hence the one variant.
#[derive(Clone, Copy)]
pub enum TimingCount {
    Kind,
}

impl Impl for Count {
    open spec fn spec_kind() -> InstrumentKind {
        InstrumentKind::Count
    }

    fn kind() -> (r: InstrumentKind) {
        InstrumentKind::Count
    }

    fn name() -> (r: String) {
        "count".to_owned()
    }
}

impl Impl for Gauge {
    open spec fn spec_kind() -> InstrumentKind {
        InstrumentKind::Gauge
    }

    fn kind() -> (r: InstrumentKind) {
        InstrumentKind::Gauge
    }

    fn name() -> (r: String) {
        "gauge".to_owned()
    }
}

impl Impl for TimingCount {
    open spec fn spec_kind() -> InstrumentKind {
        InstrumentKind::TimingCount
    }

    fn kind() -> (r: InstrumentKind) {
        InstrumentKind::TimingCount
    }

    fn name() -> (r: String) {
        "timing_count".to_owned()
    }
}

impl MakeInstrument for Count {
    type InstrumentType = instrument::Count;

    open spec fn spec_erase(h: instrument::Count) -> Instrument {
        Instrument::Count(h)
    }

    proof fn lemma_erase_injective(a: instrument::Count, b: instrument::Count) {
    }

    fn make_instrument() -> (r: instrument::Count) {
        Instrument::count()
    }

    fn erase(h: &instrument::Count) -> (r: Instrument) {
        Instrument::Count(h.share())
    }

    fn recover(i: &Instrument) -> (r: Option<instrument::Count>) {
        match i {
            Instrument::Count(c) => Some(c.share()),
            _ => None,
        }
    }
}

impl MakeInstrument for Gauge {
    type InstrumentType = instrument::Gauge;

    open spec fn spec_erase(h: instrument::Gauge) -> Instrument {
        Instrument::Gauge(h)
    }

    proof fn lemma_erase_injective(a: instrument::Gauge, b: instrument::Gauge) {
    }

    fn make_instrument() -> (r: instrument::Gauge) {
        Instrument::gauge()
    }

    fn erase(h: &instrument::Gauge) -> (r: Instrument) {
        Instrument::Gauge(h.share())
    }

    fn recover(i: &Instrument) -> (r: Option<instrument::Gauge>) {
        match i {
            Instrument::Gauge(g) => Some(g.share()),
            _ => None,
        }
    }
}

impl MakeInstrument for TimingCount {
    type InstrumentType = instrument::TimingCount;

    open spec fn spec_erase(h: instrument::TimingCount) -> Instrument {
        Instrument::TimingCount(h)
    }

    proof fn lemma_erase_injective(a: instrument::TimingCount, b: instrument::TimingCount) {
    }

    fn make_instrument() -> (r: instrument::TimingCount) {
        Instrument::timing_count()
    }

    fn erase(h: &instrument::TimingCount) -> (r: Instrument) {
        Instrument::TimingCount(h.share())
    }

    fn recover(i: &Instrument) -> (r: Option<instrument::TimingCount>) {
        match i {
            Instrument::TimingCount(t) => Some(t.share()),
            _ => None,
        }
    }
}

} // verus!
