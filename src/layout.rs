use vstd::prelude::*;

use crate::bits::{count_ones, popcount};

verus! {

/// The fields that a sample record carries (`PERF_SAMPLE_*` bits).
#[derive(Clone, Copy, Debug, PartialEq, Eq, Hash, Structural)]
pub struct SampleFormat(pub u64);

impl SampleFormat {
    pub const IP: u64 = 0x1;
    pub const TID: u64 = 0x2;
    pub const TIME: u64 = 0x4;
    pub const ADDR: u64 = 0x8;
    pub const READ: u64 = 0x10;
    pub const CALLCHAIN: u64 = 0x20;
    pub const ID: u64 = 0x40;
    pub const CPU: u64 = 0x80;
    pub const PERIOD: u64 = 0x100;
    pub const STREAM_ID: u64 = 0x200;
    pub const RAW: u64 = 0x400;
    pub const BRANCH_STACK: u64 = 0x800;
    pub const REGS_USER: u64 = 0x1000;
    pub const STACK_USER: u64 = 0x2000;
    pub const WEIGHT: u64 = 0x4000;
    pub const DATA_SRC: u64 = 0x8000;
    pub const IDENTIFIER: u64 = 0x10000;

    /// Whether every bit of `flag` is set.
    pub open spec fn has(self, flag: u64) -> bool {
        self.0 & flag == flag
    }

    pub fn contains(&self, flag: u64) -> (r: bool)
        ensures
            r == self.has(flag),
    {
        self.0 & flag == flag
    }
}

/// The branch-record sub-layout (`PERF_SAMPLE_BRANCH_*` bits), carried along for the decoder.
#[derive(Clone, Copy, Debug, PartialEq, Eq, Hash, Structural)]
pub struct BranchSampleFormat(pub u64);

/// The counter read-group layout (`PERF_FORMAT_*` bits), carried along for the decoder.
#[derive(Clone, Copy, Debug, PartialEq, Eq, Hash, Structural)]
pub struct ReadFormat(pub u64);

/// The session behaviour bits of an event attribute.
#[derive(Clone, Copy, Debug, PartialEq, Eq, Hash, Structural)]
pub struct AttrFlags(pub u64);

impl AttrFlags {
    pub const DISABLED: u64 = 0x1;
    pub const INHERIT: u64 = 0x2;
    pub const PINNED: u64 = 0x4;
    pub const EXCLUSIVE: u64 = 0x8;
    pub const EXCLUDE_USER: u64 = 0x10;
    pub const EXCLUDE_KERNEL: u64 = 0x20;
    pub const EXCLUDE_HV: u64 = 0x40;
    pub const EXCLUDE_IDLE: u64 = 0x80;
    pub const MMAP: u64 = 0x100;
    pub const COMM: u64 = 0x200;
    pub const FREQ: u64 = 0x400;
    pub const INHERIT_STAT: u64 = 0x800;
    pub const ENABLE_ON_EXEC: u64 = 0x1000;
    pub const TASK: u64 = 0x2000;
    pub const WATERMARK: u64 = 0x4000;
    pub const MMAP_DATA: u64 = 0x20000;
    /// Non-sample records carry the identification trailer too.
    pub const SAMPLE_ID_ALL: u64 = 0x40000;

    /// Whether every bit of `flag` is set.
    pub open spec fn has(self, flag: u64) -> bool {
        self.0 & flag == flag
    }

    pub fn contains(&self, flag: u64) -> (r: bool)
        ensures
            r == self.has(flag),
    {
        self.0 & flag == flag
    }
}

/// The session configuration that the record layout is derived from.
#[derive(Clone, Copy, Debug, PartialEq, Eq, Hash, Structural)]
pub struct PerfEventAttr {
    pub sample_format: SampleFormat,
    pub branch_sample_format: BranchSampleFormat,
    pub read_format: ReadFormat,
    pub flags: AttrFlags,
    /// One bit per user register captured with each sample.
    pub sample_regs_user: u64,
}

/// The number of fields of `fields` that `sf` selects.
pub open spec fn count_present(sf: SampleFormat, fields: Seq<u64>) -> nat
    decreases fields.len(),
{
    if fields.len() == 0 {
        0
    } else {
        count_present(sf, fields.drop_last()) + if sf.has(fields.last()) { 1nat } else { 0nat }
    }
}

/// The order of the identification trailer (`struct sample_id`) of a record.
pub open spec fn trailer_order() -> Seq<u64> {
    seq![
        SampleFormat::TID,
        SampleFormat::TIME,
        SampleFormat::ID,
        SampleFormat::STREAM_ID,
        SampleFormat::CPU,
        SampleFormat::IDENTIFIER,
    ]
}

/// The order of the fixed-field prefix of a sample record.
pub open spec fn prefix_order() -> Seq<u64> {
    seq![
        SampleFormat::IDENTIFIER,
        SampleFormat::IP,
        SampleFormat::TID,
        SampleFormat::TIME,
        SampleFormat::ADDR,
        SampleFormat::ID,
    ]
}

/// Bytes taken by the present fields that `order` places before position `k`.
pub open spec fn bytes_before(sf: SampleFormat, order: Seq<u64>, k: int) -> nat {
    8 * count_present(sf, order.take(k))
}

/// Bytes taken by the present fields that `order` places after position `k`.
pub open spec fn bytes_after(sf: SampleFormat, order: Seq<u64>, k: int) -> nat {
    8 * count_present(sf, order.skip(k + 1))
}

pub open spec fn tags_all_records(flags: AttrFlags) -> bool {
    flags.has(AttrFlags::SAMPLE_ID_ALL)
}

/// Size of the identification trailer, when every record carries one.
pub open spec fn common_trailer_size(sf: SampleFormat, flags: AttrFlags) -> Option<usize> {
    if tags_all_records(flags) {
        Some((8 * count_present(sf, trailer_order())) as usize)
    } else {
        None
    }
}

/// Offset from the end of a non-sample record of its timestamp: the bytes of the trailer fields
/// after it.
pub open spec fn nonsample_time_offset(sf: SampleFormat, flags: AttrFlags) -> Option<usize> {
    if tags_all_records(flags) && sf.has(SampleFormat::TIME) {
        Some(bytes_after(sf, trailer_order(), 1) as usize)
    } else {
        None
    }
}

/// Offset from the end of a non-sample record of its event id: 8 where the identifier (always
/// last) is present, else the bytes of the trailer fields after the id.
pub open spec fn nonsample_id_offset(sf: SampleFormat, flags: AttrFlags) -> Option<usize> {
    if tags_all_records(flags) && (sf.has(SampleFormat::ID) || sf.has(SampleFormat::IDENTIFIER)) {
        if sf.has(SampleFormat::IDENTIFIER) {
            Some(8)
        } else {
            Some(bytes_after(sf, trailer_order(), 2) as usize)
        }
    } else {
        None
    }
}

/// Offset from the start of a sample record of its event id: 0 where the identifier (always
/// first) is present, else the bytes of the prefix fields before the id.
pub open spec fn sample_id_offset(sf: SampleFormat) -> Option<usize> {
    if sf.has(SampleFormat::IDENTIFIER) {
        Some(0)
    } else if sf.has(SampleFormat::ID) {
        Some(bytes_before(sf, prefix_order(), 5) as usize)
    } else {
        None
    }
}

/// Offset from the start of a sample record of its timestamp: the bytes of the prefix fields
/// before it.
pub open spec fn sample_time_offset(sf: SampleFormat) -> Option<usize> {
    if sf.has(SampleFormat::TIME) {
        Some(bytes_before(sf, prefix_order(), 3) as usize)
    } else {
        None
    }
}

pub proof fn lemma_count_present_bound(sf: SampleFormat, fields: Seq<u64>)
    ensures
        count_present(sf, fields) <= fields.len(),
    decreases fields.len(),
{
    if fields.len() > 0 {
        lemma_count_present_bound(sf, fields.drop_last());
    }
}

fn trailer_fields() -> (r: [u64; 6])
    ensures
        r@ == trailer_order(),
{
    let r = [
        SampleFormat::TID,
        SampleFormat::TIME,
        SampleFormat::ID,
        SampleFormat::STREAM_ID,
        SampleFormat::CPU,
        SampleFormat::IDENTIFIER,
    ];
    assert(r@ =~= trailer_order());
    r
}

fn prefix_fields() -> (r: [u64; 6])
    ensures
        r@ == prefix_order(),
{
    let r = [
        SampleFormat::IDENTIFIER,
        SampleFormat::IP,
        SampleFormat::TID,
        SampleFormat::TIME,
        SampleFormat::ADDR,
        SampleFormat::ID,
    ];
    assert(r@ =~= prefix_order());
    r
}

/// Bytes taken by the present fields at positions `lo .. hi` of `order`.
fn bytes_between(sf: SampleFormat, order: &[u64; 6], lo: usize, hi: usize) -> (r: usize)
    requires
        lo <= hi <= 6,
    ensures
        r == 8 * count_present(sf, order@.subrange(lo as int, hi as int)),
{
    let mut i: usize = lo;
    let mut c: usize = 0;
    while i < hi
        invariant
            lo <= i <= hi <= 6,
            c == 8 * count_present(sf, order@.subrange(lo as int, i as int)),
        decreases hi - i,
    {
        proof {
            lemma_count_present_bound(sf, order@.subrange(lo as int, i as int));
            assert(order@.subrange(lo as int, i + 1).drop_last() =~= order@.subrange(lo as int, i as int));
        }
        if sf.contains(order[i]) {
            c = c + 8;
        }
        i = i + 1;
    }
    c
}

/// Where the optional fields of the records of one session lie.
#[derive(Clone, Copy, Debug, PartialEq, Eq)]
pub struct RecordParseInfo {
    pub sample_format: SampleFormat,
    pub branch_sample_format: BranchSampleFormat,
    pub read_format: ReadFormat,
    /// Size of the identification trailer at the end of every record.
    pub common_data_offset_from_end: Option<usize>,
    pub sample_regs_user: u64,
    pub regs_count: usize,
    pub nonsample_record_time_offset_from_end: Option<usize>,
    pub nonsample_record_id_offset_from_end: Option<usize>,
    pub sample_record_time_offset_from_start: Option<usize>,
    pub sample_record_id_offset_from_start: Option<usize>,
}

impl RecordParseInfo {
    /// Resolves the record layout of a session from its configuration.
    pub fn from_attr(attr: &PerfEventAttr) -> (r: Self)
        ensures
            r.sample_format == attr.sample_format,
            r.branch_sample_format == attr.branch_sample_format,
            r.read_format == attr.read_format,
            r.sample_regs_user == attr.sample_regs_user,
            r.regs_count == popcount(attr.sample_regs_user),
            r.common_data_offset_from_end == common_trailer_size(attr.sample_format, attr.flags),
            r.nonsample_record_time_offset_from_end == nonsample_time_offset(
                attr.sample_format,
                attr.flags,
            ),
            r.nonsample_record_id_offset_from_end == nonsample_id_offset(
                attr.sample_format,
                attr.flags,
            ),
            r.sample_record_time_offset_from_start == sample_time_offset(attr.sample_format),
            r.sample_record_id_offset_from_start == sample_id_offset(attr.sample_format),
    {
        let sf = attr.sample_format;
        let tag_all = attr.flags.contains(AttrFlags::SAMPLE_ID_ALL);
        let trailer = trailer_fields();
        let prefix = prefix_fields();
        proof {
            assert(trailer@.subrange(0, 6) =~= trailer_order());
            assert(trailer@.subrange(2, 6) =~= trailer_order().skip(2));
            assert(trailer@.subrange(3, 6) =~= trailer_order().skip(3));
            assert(prefix@.subrange(0, 5) =~= prefix_order().take(5));
            assert(prefix@.subrange(0, 3) =~= prefix_order().take(3));
        }

        // Trailer: pid/tid, time, id, stream id, cpu, identifier.
        let common_data_offset_from_end = if tag_all {
            Some(bytes_between(sf, &trailer, 0, 6))
        } else {
            None
        };
        let regs_count = count_ones(attr.sample_regs_user) as usize;
        let nonsample_record_time_offset_from_end = if tag_all && sf.contains(SampleFormat::TIME) {
            Some(bytes_between(sf, &trailer, 2, 6))
        } else {
            None
        };
        let nonsample_record_id_offset_from_end = if tag_all && (sf.contains(SampleFormat::ID)
            || sf.contains(SampleFormat::IDENTIFIER)) {
            if sf.contains(SampleFormat::IDENTIFIER) {
                // The identifier is always the last field of the trailer.
                Some(8)
            } else {
                Some(bytes_between(sf, &trailer, 3, 6))
            }
        } else {
            None
        };

        // Prefix: identifier, ip, pid/tid, time, addr, id.
        let sample_record_id_offset_from_start = if sf.contains(SampleFormat::IDENTIFIER) {
            Some(0)
        } else if sf.contains(SampleFormat::ID) {
            Some(bytes_between(sf, &prefix, 0, 5))
        } else {
            None
        };
        let sample_record_time_offset_from_start = if sf.contains(SampleFormat::TIME) {
            Some(bytes_between(sf, &prefix, 0, 3))
        } else {
            None
        };

        RecordParseInfo {
            sample_format: sf,
            branch_sample_format: attr.branch_sample_format,
            read_format: attr.read_format,
            common_data_offset_from_end,
            sample_regs_user: attr.sample_regs_user,
            regs_count,
            nonsample_record_time_offset_from_end,
            nonsample_record_id_offset_from_end,
            sample_record_time_offset_from_start,
            sample_record_id_offset_from_start,
        }
    }
}

} // verus!
