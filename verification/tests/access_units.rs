use h265::nal::{decode_header, first_slice_flag};
use h265::{AccessUnitCounter, MalformedUnit};

/// Builds the two header bytes of a NAL unit from its fields.
fn header_bytes(nal_unit_type: u8, nuh_layer_id: u8, nuh_temporal_id_plus1: u8) -> [u8; 2] {
    [
        (nal_unit_type << 1) | (nuh_layer_id >> 5),
        ((nuh_layer_id & 0x1f) << 3) | (nuh_temporal_id_plus1 & 0x07),
    ]
}

/// A slice-segment unit of the given type with the given first-slice flag
/// and one spare payload byte.
fn slice_unit(nal_unit_type: u8, first: bool) -> Vec<u8> {
    let h = header_bytes(nal_unit_type, 0, 1);
    vec![h[0], h[1], if first { 0x80 } else { 0x00 }, 0x55]
}

/// A non-VCL unit of the given type and layer with no payload.
fn non_vcl_unit(nal_unit_type: u8, nuh_layer_id: u8) -> Vec<u8> {
    let h = header_bytes(nal_unit_type, nuh_layer_id, 1);
    vec![h[0], h[1]]
}

#[test]
fn empty_stream_counts_zero() {
    let counter = AccessUnitCounter::new();
    assert_eq!(counter.count(), 0);
}

#[test]
fn default_counter_is_fresh() {
    let counter = AccessUnitCounter::default();
    assert_eq!(counter.count(), 0);
}

#[test]
fn single_first_slice_counts_one() {
    let mut counter = AccessUnitCounter::new();
    counter.count_nalu(&slice_unit(1, true)).unwrap();
    assert_eq!(counter.count(), 1);
}

#[test]
fn single_continuation_slice_counts_zero() {
    let mut counter = AccessUnitCounter::new();
    counter.count_nalu(&slice_unit(1, false)).unwrap();
    assert_eq!(counter.count(), 0);
}

#[test]
fn upper_band_slice_type_counts_one() {
    // An IDR slice (type 19) sits in the upper slice-segment band.
    let mut counter = AccessUnitCounter::new();
    counter.count_nalu(&slice_unit(19, true)).unwrap();
    assert_eq!(counter.count(), 1);
}

#[test]
fn n_first_slices_count_n() {
    let mut counter = AccessUnitCounter::new();
    for _ in 0..5 {
        counter.count_nalu(&slice_unit(0, true)).unwrap();
    }
    assert_eq!(counter.count(), 5);
}

#[test]
fn leading_non_vcl_unit_counted_once() {
    // [VPS(layer 0), SLICE(first = 1), SLICE(first = 0)] is one picture:
    // the leading non-VCL unit opens the access unit and the first slice
    // segment must not open it again.
    let mut counter = AccessUnitCounter::new();
    counter.count_nalu(&non_vcl_unit(32, 0)).unwrap();
    counter.count_nalu(&slice_unit(1, true)).unwrap();
    counter.count_nalu(&slice_unit(1, false)).unwrap();
    assert_eq!(counter.count(), 1);
}

#[test]
fn run_of_leading_non_vcl_units_counted_once() {
    // VPS, SPS and PPS before the first slice open the access unit once.
    let mut counter = AccessUnitCounter::new();
    counter.count_nalu(&non_vcl_unit(32, 0)).unwrap();
    counter.count_nalu(&non_vcl_unit(33, 0)).unwrap();
    counter.count_nalu(&non_vcl_unit(34, 0)).unwrap();
    counter.count_nalu(&slice_unit(1, true)).unwrap();
    assert_eq!(counter.count(), 1);
}

#[test]
fn enhancement_layer_non_vcl_units_are_inert() {
    let mut counter = AccessUnitCounter::new();
    counter.count_nalu(&non_vcl_unit(32, 5)).unwrap();
    assert_eq!(counter.count(), 0);
    counter.count_nalu(&slice_unit(1, true)).unwrap();
    assert_eq!(counter.count(), 1);
    // Still inert between pictures, and it must not consume the pending
    // boundary: the next base-layer non-VCL unit opens the next access
    // unit as if the enhancement-layer unit had not been there.
    counter.count_nalu(&non_vcl_unit(39, 1)).unwrap();
    assert_eq!(counter.count(), 1);
    counter.count_nalu(&non_vcl_unit(32, 0)).unwrap();
    assert_eq!(counter.count(), 2);
}

#[test]
fn reserved_vcl_unit_restores_pending() {
    // After a non-VCL unit consumed the pending boundary, a reserved VCL
    // unit (type 10) sets it again, so the next base-layer non-VCL unit
    // opens a new access unit.
    let mut counter = AccessUnitCounter::new();
    counter.count_nalu(&non_vcl_unit(32, 0)).unwrap();
    assert_eq!(counter.count(), 1);
    counter.count_nalu(&non_vcl_unit(39, 0)).unwrap();
    assert_eq!(counter.count(), 1);
    counter.count_nalu(&non_vcl_unit(10, 0)).unwrap();
    assert_eq!(counter.count(), 1);
    counter.count_nalu(&non_vcl_unit(32, 0)).unwrap();
    assert_eq!(counter.count(), 2);
}

#[test]
fn empty_unit_is_malformed() {
    let mut counter = AccessUnitCounter::new();
    assert_eq!(counter.count_nalu(&[]), Err(MalformedUnit));
    assert_eq!(counter.count(), 0);
}

#[test]
fn one_byte_unit_is_malformed() {
    let mut counter = AccessUnitCounter::new();
    counter.count_nalu(&slice_unit(1, true)).unwrap();
    assert_eq!(counter.count_nalu(&[0x02]), Err(MalformedUnit));
    // The failing call left the counter untouched.
    assert_eq!(counter.count(), 1);
    counter.count_nalu(&slice_unit(1, true)).unwrap();
    assert_eq!(counter.count(), 2);
}

#[test]
fn payloadless_slice_unit_is_malformed_while_pending() {
    let mut counter = AccessUnitCounter::new();
    let h = header_bytes(1, 0, 1);
    assert_eq!(counter.count_nalu(&[h[0], h[1]]), Err(MalformedUnit));
    assert_eq!(counter.count(), 0);
}

#[test]
fn payloadless_slice_unit_passes_when_not_pending() {
    // Once a non-VCL unit has consumed the pending boundary, a slice
    // segment's payload is not inspected, so a headers-only slice unit is
    // accepted.
    let mut counter = AccessUnitCounter::new();
    counter.count_nalu(&non_vcl_unit(32, 0)).unwrap();
    let h = header_bytes(1, 0, 1);
    counter.count_nalu(&[h[0], h[1]]).unwrap();
    assert_eq!(counter.count(), 1);
}

#[test]
fn segment_pair_counts_one_in_either_order() {
    let mut in_order = AccessUnitCounter::new();
    in_order.count_nalu(&slice_unit(1, true)).unwrap();
    in_order.count_nalu(&slice_unit(1, false)).unwrap();
    assert_eq!(in_order.count(), 1);

    let mut swapped = AccessUnitCounter::new();
    swapped.count_nalu(&slice_unit(1, false)).unwrap();
    swapped.count_nalu(&slice_unit(1, true)).unwrap();
    assert_eq!(swapped.count(), 1);
}

#[test]
fn cloned_counter_keeps_its_own_state() {
    let mut counter = AccessUnitCounter::new();
    counter.count_nalu(&slice_unit(1, true)).unwrap();
    let mut copy = counter.clone();
    copy.count_nalu(&slice_unit(1, true)).unwrap();
    assert_eq!(counter.count(), 1);
    assert_eq!(copy.count(), 2);
}

#[test]
fn decode_header_reads_all_fields() {
    let h = header_bytes(21, 33, 5);
    let header = decode_header(&[h[0], h[1], 0xff]).unwrap();
    assert_eq!(header.nal_unit_type, 21);
    assert_eq!(header.nuh_layer_id, 33);
    assert_eq!(header.nuh_temporal_id_plus1, 5);
}

#[test]
fn decode_header_rejects_short_input() {
    assert_eq!(decode_header(&[]), Err(MalformedUnit));
    assert_eq!(decode_header(&[0x40]), Err(MalformedUnit));
}

#[test]
fn first_slice_flag_reads_top_payload_bit() {
    assert_eq!(first_slice_flag(&[0x02, 0x01, 0x80]), Ok(true));
    assert_eq!(first_slice_flag(&[0x02, 0x01, 0x7f]), Ok(false));
    assert_eq!(first_slice_flag(&[0x02, 0x01]), Err(MalformedUnit));
}
