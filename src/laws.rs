use vstd::prelude::*;

use crate::layout::{
    common_trailer_size, count_present, lemma_count_present_bound,
    nonsample_id_offset, nonsample_time_offset, prefix_order, sample_id_offset,
    sample_time_offset, tags_all_records, trailer_order, AttrFlags, SampleFormat,
};

verus! {

/// Absent, or a multiple of eight bytes.
pub open spec fn aligned(o: Option<usize>) -> bool {
    o is Some ==> o.unwrap() % 8 == 0
}

/// Absent on either side, or no smaller after than before.
pub open spec fn not_smaller(before: Option<usize>, after: Option<usize>) -> bool {
    before is Some && after is Some ==> before.unwrap() <= after.unwrap()
}

/// The sample fields of `sf` with the bits of `flag` added.
pub open spec fn with_field(sf: SampleFormat, flag: u64) -> SampleFormat {
    SampleFormat(sf.0 | flag)
}

proof fn lemma_aligned_bytes(n: nat)
    requires
        n <= 6,
    ensures
        aligned(Some((8 * n) as usize)),
{
}

/// Every resolved offset and the trailer size are absent or a multiple of eight bytes.
pub proof fn lemma_offsets_aligned(sf: SampleFormat, flags: AttrFlags)
    ensures
        aligned(common_trailer_size(sf, flags)),
        aligned(nonsample_time_offset(sf, flags)),
        aligned(nonsample_id_offset(sf, flags)),
        aligned(sample_id_offset(sf)),
        aligned(sample_time_offset(sf)),
{
    lemma_count_present_bound(sf, trailer_order());
    lemma_count_present_bound(sf, trailer_order().skip(2));
    lemma_count_present_bound(sf, trailer_order().skip(3));
    lemma_count_present_bound(sf, prefix_order().take(5));
    lemma_count_present_bound(sf, prefix_order().take(3));
    lemma_aligned_bytes(count_present(sf, trailer_order()));
    lemma_aligned_bytes(count_present(sf, trailer_order().skip(2)));
    lemma_aligned_bytes(count_present(sf, trailer_order().skip(3)));
    lemma_aligned_bytes(count_present(sf, prefix_order().take(5)));
    lemma_aligned_bytes(count_present(sf, prefix_order().take(3)));
    lemma_aligned_bytes(0);
    lemma_aligned_bytes(1);
}

/// Without tagging of all records there is no trailer and no non-sample offset, whatever the
/// sample fields.
pub proof fn lemma_untagged_has_no_trailer(sf: SampleFormat, flags: AttrFlags)
    requires
        !tags_all_records(flags),
    ensures
        common_trailer_size(sf, flags) is None,
        nonsample_time_offset(sf, flags) is None,
        nonsample_id_offset(sf, flags) is None,
{
}

/// With the identifier field, a sample record starts with the id, and a tagged non-sample
/// record ends with it, whatever the other fields.
pub proof fn lemma_identifier_position(sf: SampleFormat, flags: AttrFlags)
    requires
        sf.has(SampleFormat::IDENTIFIER),
    ensures
        sample_id_offset(sf) == Some(0usize),
        tags_all_records(flags) ==> nonsample_id_offset(sf, flags) == Some(8usize),
{
}

proof fn lemma_count_present_monotone(a: SampleFormat, b: SampleFormat, fields: Seq<u64>)
    requires
        forall|f: u64| a.has(f) ==> b.has(f),
    ensures
        count_present(a, fields) <= count_present(b, fields),
    decreases fields.len(),
{
    if fields.len() > 0 {
        lemma_count_present_monotone(a, b, fields.drop_last());
    }
}

proof fn lemma_with_field_keeps_fields(sf: SampleFormat, flag: u64)
    ensures
        forall|f: u64| sf.has(f) ==> with_field(sf, flag).has(f),
{
    assert forall|f: u64| sf.has(f) implies with_field(sf, flag).has(f) by {
        let x = sf.0;
        assert(x & f == f ==> (x | flag) & f == f) by (bit_vector);
    }
}

proof fn lemma_bytes_monotone(sf: SampleFormat, flag: u64, fields: Seq<u64>)
    requires
        fields.len() <= 6,
    ensures
        (8 * count_present(sf, fields)) as usize <= (8 * count_present(
            with_field(sf, flag),
            fields,
        )) as usize,
{
    lemma_with_field_keeps_fields(sf, flag);
    lemma_count_present_monotone(sf, with_field(sf, flag), fields);
    lemma_count_present_bound(with_field(sf, flag), fields);
}

/// Adding a sample field never shrinks the trailer, and moves no timestamp offset from the
/// start earlier nor from the end closer to the end.
pub proof fn lemma_adding_field_is_monotone(sf: SampleFormat, flag: u64, flags: AttrFlags)
    ensures
        not_smaller(common_trailer_size(sf, flags), common_trailer_size(with_field(sf, flag), flags)),
        not_smaller(
            nonsample_time_offset(sf, flags),
            nonsample_time_offset(with_field(sf, flag), flags),
        ),
        not_smaller(sample_time_offset(sf), sample_time_offset(with_field(sf, flag))),
{
    lemma_bytes_monotone(sf, flag, trailer_order());
    lemma_bytes_monotone(sf, flag, trailer_order().skip(2));
    lemma_bytes_monotone(sf, flag, prefix_order().take(3));
}

/// Adding a sample field other than a new identifier moves neither id offset the wrong way.
/// (A new identifier takes the first place of the prefix and the last of the trailer, which
/// puts the id at a fixed position that may be nearer to either edge.)
pub proof fn lemma_adding_field_keeps_id_order(sf: SampleFormat, flag: u64, flags: AttrFlags)
    requires
        sf.has(SampleFormat::IDENTIFIER) || !with_field(sf, flag).has(SampleFormat::IDENTIFIER),
    ensures
        not_smaller(nonsample_id_offset(sf, flags), nonsample_id_offset(with_field(sf, flag), flags)),
        not_smaller(sample_id_offset(sf), sample_id_offset(with_field(sf, flag))),
{
    lemma_with_field_keeps_fields(sf, flag);
    lemma_bytes_monotone(sf, flag, trailer_order().skip(3));
    lemma_bytes_monotone(sf, flag, prefix_order().take(5));
}

} // verus!
