//! Stream-level laws of the access-unit counter, proved over its model.
//!
//! Each law speaks of [`step`] and [`run`], the model that the contract of
//! [`crate::counter::AccessUnitCounter::count_nalu`] ties to the
//! executable counter, so it holds of any sequence of calls on a counter.

use vstd::prelude::*;

use crate::counter::{initial_model, run, step, CounterModel};
use crate::nal::{
    is_base_layer_non_vcl_unit, is_continuation_slice_unit, is_first_slice_unit,
    is_slice_segment_type, is_vcl_type, spec_first_slice_flag, spec_layer_id, spec_nal_unit_type,
    HEADER_LEN,
};

verus! {

/// A stream of no units leaves a counter as it was; in particular a fresh
/// counter over such a stream holds count zero.
pub proof fn lemma_empty_stream(s: CounterModel)
    ensures
        run(s, Seq::empty()) == s,
        run(initial_model(), Seq::empty()).count == 0,
{
}

/// The count never decreases, and one unit raises it by at most one.
pub proof fn lemma_step_count_bounds(s: CounterModel, u: Seq<u8>)
    ensures
        s.count <= step(s, u).count <= s.count + 1,
{
}

/// One slice-segment unit fed to a fresh counter counts one access unit
/// exactly when its first-slice flag is set.
pub proof fn lemma_single_slice_unit(u: Seq<u8>)
    requires
        u.len() > HEADER_LEN,
        is_slice_segment_type(spec_nal_unit_type(u[0])),
    ensures
        step(initial_model(), u).count == if spec_first_slice_flag(u) {
            1nat
        } else {
            0nat
        },
        step(initial_model(), u).pending,
{
}

/// From a state with a boundary pending, a run of consecutive
/// slice-segment units, each marked first-of-picture, counts one access
/// unit per unit and leaves a boundary pending.
pub proof fn lemma_consecutive_first_slices(s: CounterModel, units: Seq<Seq<u8>>)
    requires
        s.pending,
        forall|i: int| 0 <= i < units.len() ==> is_first_slice_unit(#[trigger] units[i]),
    ensures
        run(s, units).pending,
        run(s, units).count == s.count + units.len(),
    decreases units.len(),
{
    if units.len() > 0 {
        let rest = units.drop_first();
        assert forall|i: int| 0 <= i < rest.len() implies is_first_slice_unit(
            #[trigger] rest[i],
        ) by {
            assert(rest[i] == units[i + 1]);
        }
        lemma_consecutive_first_slices(step(s, units[0]), rest);
    }
}

/// A fresh counter over a stream of N consecutive first-of-picture slice
/// segments counts N access units.
pub proof fn lemma_stream_of_first_slices(units: Seq<Seq<u8>>)
    requires
        forall|i: int| 0 <= i < units.len() ==> is_first_slice_unit(#[trigger] units[i]),
    ensures
        run(initial_model(), units).count == units.len(),
{
    lemma_consecutive_first_slices(initial_model(), units);
}

/// A picture opened by one leading base-layer non-VCL unit and carried by
/// a first slice segment and a continuation segment is counted exactly
/// once: the leading unit consumes the pending boundary, and the first
/// slice segment — though its flag is still inspected — does not raise
/// the count again.
pub proof fn lemma_leading_non_vcl_counted_once(
    s: CounterModel,
    lead: Seq<u8>,
    first: Seq<u8>,
    cont: Seq<u8>,
)
    requires
        s.pending,
        is_base_layer_non_vcl_unit(lead),
        is_first_slice_unit(first),
        is_continuation_slice_unit(cont),
    ensures
        run(s, seq![lead, first, cont]) == (CounterModel { pending: true, count: s.count + 1 }),
{
    reveal_with_fuel(run, 4);
    let units = seq![lead, first, cont];
    assert(units.drop_first() =~= seq![first, cont]);
    assert(seq![first, cont].drop_first() =~= seq![cont]);
    assert(seq![cont].drop_first() =~= Seq::<Seq<u8>>::empty());
}

/// A non-VCL unit of an enhancement layer (layer id other than zero)
/// never changes the counter, whatever the surrounding state.
pub proof fn lemma_enhancement_non_vcl_inert(s: CounterModel, u: Seq<u8>)
    requires
        !is_vcl_type(spec_nal_unit_type(u[0])),
        spec_layer_id(u[0], u[1]) != 0,
    ensures
        step(s, u) == s,
{
}

/// Swapping a picture's first slice segment and its continuation segment
/// moves the increment to the other call, but either order leaves a fresh
/// counter at count one.
pub proof fn lemma_slice_pair_order_insensitive(a: Seq<u8>, b: Seq<u8>)
    requires
        is_first_slice_unit(a),
        is_continuation_slice_unit(b),
    ensures
        run(initial_model(), seq![a, b]).count == 1,
        run(initial_model(), seq![b, a]).count == 1,
{
    reveal_with_fuel(run, 3);
    assert(seq![a, b].drop_first() =~= seq![b]);
    assert(seq![b, a].drop_first() =~= seq![a]);
    assert(seq![a].drop_first() =~= Seq::<Seq<u8>>::empty());
    assert(seq![b].drop_first() =~= Seq::<Seq<u8>>::empty());
}

} // verus!
