//! The access-unit counter: a two-field state machine over NAL units.
//!
//! The counter holds a running count of access-unit boundaries and one bit
//! of memory, `maybe_start_new_access_unit` — "a non-VCL unit seen now
//! would open a new access unit".  Its ghost model is [`CounterModel`] and
//! each accepted unit moves the model by [`step`]; a whole stream moves it
//! by [`run`].

use vstd::prelude::*;

use crate::nal::{
    decode_header, first_slice_flag, is_slice_segment_type, is_vcl_type, spec_first_slice_flag,
    spec_layer_id, spec_nal_unit_type, MalformedUnit, HEADER_LEN,
};

verus! {

/// The mathematical state of an access-unit counter: the pending-boundary
/// bit and the count of access units seen, as an unbounded natural.
pub ghost struct CounterModel {
    /// Whether a base-layer non-VCL unit seen now would open a new access
    /// unit, and whether the next slice segment's first-slice flag is to
    /// be inspected.
    pub pending: bool,
    /// How many access-unit boundaries have been seen.
    pub count: nat,
}

/// The state of a counter over a stream none of whose units has been fed
/// yet: no access unit seen, a boundary pending.
pub open spec fn initial_model() -> CounterModel {
    CounterModel { pending: true, count: 0 }
}

/// Whether one NAL unit is long enough to be processed in state `s`: it
/// must hold a header, and — when it is a slice segment whose flag will be
/// inspected because a boundary is pending — one payload byte more.
pub open spec fn unit_wf(s: CounterModel, u: Seq<u8>) -> bool {
    u.len() >= HEADER_LEN
        && (s.pending && is_slice_segment_type(spec_nal_unit_type(u[0])) ==> u.len() > HEADER_LEN)
}

/// How one NAL unit moves the counter state (meaningful when
/// `unit_wf(s, u)` holds).
///
/// A slice segment is inspected only while a boundary is pending: its
/// first-slice flag then opens a new access unit.  Either way the next
/// slice segment must be inspected again, so `pending` is set.  A reserved
/// VCL unit only sets `pending`.  A non-VCL unit opens a new access unit
/// exactly when a boundary is pending and the unit belongs to the base
/// layer; it then consumes `pending`, so that a run of leading non-VCL
/// units opens the access unit once.
pub open spec fn step(s: CounterModel, u: Seq<u8>) -> CounterModel {
    let t = spec_nal_unit_type(u[0]);
    if is_slice_segment_type(t) {
        CounterModel {
            pending: true,
            count: if s.pending && spec_first_slice_flag(u) {
                s.count + 1
            } else {
                s.count
            },
        }
    } else if is_vcl_type(t) {
        CounterModel { pending: true, count: s.count }
    } else if s.pending && spec_layer_id(u[0], u[1]) == 0 {
        CounterModel { pending: false, count: s.count + 1 }
    } else {
        s
    }
}

/// How a whole stream of NAL units, fed in order, moves the counter state.
pub open spec fn run(s: CounterModel, units: Seq<Seq<u8>>) -> CounterModel
    decreases units.len(),
{
    if units.len() == 0 {
        s
    } else {
        run(step(s, units[0]), units.drop_first())
    }
}

/// Counts the access units of one elementary stream, fed one NAL unit at
/// a time.
#[derive(Clone)]
pub struct AccessUnitCounter {
    maybe_start_new_access_unit: bool,
    count: u64,
}

impl View for AccessUnitCounter {
    type V = CounterModel;

    closed spec fn view(&self) -> CounterModel {
        CounterModel { pending: self.maybe_start_new_access_unit, count: self.count as nat }
    }
}

impl AccessUnitCounter {
    /// A counter for a fresh stream: count zero, a boundary pending.
    pub fn new() -> (c: Self)
        ensures
            c@ == initial_model(),
    {
        Self { maybe_start_new_access_unit: true, count: 0 }
    }

    /// The number of access-unit boundaries seen so far.
    pub fn count(&self) -> (n: u64)
        ensures
            n == self@.count,
    {
        self.count
    }

    /// Feeds one NAL unit to the counter.  Succeeds exactly when the unit
    /// is long enough to be classified — see [`unit_wf`] — and then moves
    /// the counter by [`step`]; on a malformed unit it reports the error
    /// and leaves the counter untouched.
    pub fn count_nalu(&mut self, nalu: &[u8]) -> (r: Result<(), MalformedUnit>)
        requires
            old(self)@.count < u64::MAX,
        ensures
            r is Ok <==> unit_wf(old(self)@, nalu@),
            r is Ok ==> final(self)@ == step(old(self)@, nalu@),
            r is Err ==> final(self)@ == old(self)@,
    {
        let header = decode_header(nalu)?;

        // ITU-T H.265, 7.4.2.4.4
        if header.is_slice_segment() {
            if self.maybe_start_new_access_unit {
                let first = first_slice_flag(nalu)?;
                if first {
                    self.count = self.count + 1;
                }
            }
            self.maybe_start_new_access_unit = true;
        } else if header.is_vcl() {
            self.maybe_start_new_access_unit = true;
        } else if self.maybe_start_new_access_unit && header.nuh_layer_id == 0 {
            self.maybe_start_new_access_unit = false;
            self.count = self.count + 1;
        }

        Ok(())
    }
}

impl Default for AccessUnitCounter {
    /// The same counter as [`AccessUnitCounter::new`] returns.
    fn default() -> (c: Self)
        ensures
            c@ == initial_model(),
    {
        Self::new()
    }
}

} // verus!
