use perf_record_layout::bits::count_ones;
use perf_record_layout::layout::{
    AttrFlags, BranchSampleFormat, PerfEventAttr, ReadFormat, RecordParseInfo, SampleFormat,
};

fn attr(sample_format: u64, flags: u64, regs: u64) -> PerfEventAttr {
    PerfEventAttr {
        sample_format: SampleFormat(sample_format),
        branch_sample_format: BranchSampleFormat(0x5),
        read_format: ReadFormat(0x3),
        flags: AttrFlags(flags),
        sample_regs_user: regs,
    }
}

fn offsets(info: &RecordParseInfo) -> [Option<usize>; 5] {
    [
        info.common_data_offset_from_end,
        info.nonsample_record_time_offset_from_end,
        info.nonsample_record_id_offset_from_end,
        info.sample_record_time_offset_from_start,
        info.sample_record_id_offset_from_start,
    ]
}

#[test]
fn timestamp_only_untagged() {
    let info = RecordParseInfo::from_attr(&attr(SampleFormat::TIME, 0, 0));
    assert_eq!(info.common_data_offset_from_end, None);
    assert_eq!(info.nonsample_record_time_offset_from_end, None);
    assert_eq!(info.nonsample_record_id_offset_from_end, None);
    assert_eq!(info.sample_record_time_offset_from_start, Some(0));
    assert_eq!(info.sample_record_id_offset_from_start, None);
}

#[test]
fn tid_time_id_tagged() {
    let sf = SampleFormat::TID | SampleFormat::TIME | SampleFormat::ID;
    let info = RecordParseInfo::from_attr(&attr(sf, AttrFlags::SAMPLE_ID_ALL, 0));
    assert_eq!(info.common_data_offset_from_end, Some(24));
    assert_eq!(info.nonsample_record_time_offset_from_end, Some(8));
    assert_eq!(info.nonsample_record_id_offset_from_end, Some(0));
}

#[test]
fn identifier_ip_time() {
    let sf = SampleFormat::IDENTIFIER | SampleFormat::IP | SampleFormat::TIME;
    let info = RecordParseInfo::from_attr(&attr(sf, 0, 0));
    assert_eq!(info.sample_record_id_offset_from_start, Some(0));
    assert_eq!(info.sample_record_time_offset_from_start, Some(16));
}

#[test]
fn carries_the_other_formats() {
    let a = attr(SampleFormat::IP, AttrFlags::SAMPLE_ID_ALL, 0xf0);
    let info = RecordParseInfo::from_attr(&a);
    assert_eq!(info.sample_format, a.sample_format);
    assert_eq!(info.branch_sample_format, BranchSampleFormat(0x5));
    assert_eq!(info.read_format, ReadFormat(0x3));
    assert_eq!(info.sample_regs_user, 0xf0);
    assert_eq!(info.regs_count, 4);
}

#[test]
fn register_count_edges() {
    assert_eq!(RecordParseInfo::from_attr(&attr(0, 0, 0)).regs_count, 0);
    assert_eq!(RecordParseInfo::from_attr(&attr(0, 0, u64::MAX)).regs_count, 64);
    assert_eq!(RecordParseInfo::from_attr(&attr(0, 0, 0x8000_0000_0000_0001)).regs_count, 2);
}

#[test]
fn count_ones_matches_std() {
    for x in [0u64, 1, 2, 3, 0xff, 0x1234_5678_9abc_def0, u64::MAX, 1 << 63] {
        assert_eq!(count_ones(x), x.count_ones());
    }
}

#[test]
fn every_field_tagged() {
    let sf = SampleFormat::IDENTIFIER
        | SampleFormat::IP
        | SampleFormat::TID
        | SampleFormat::TIME
        | SampleFormat::ADDR
        | SampleFormat::ID
        | SampleFormat::STREAM_ID
        | SampleFormat::CPU;
    let info = RecordParseInfo::from_attr(&attr(sf, AttrFlags::SAMPLE_ID_ALL, 0));
    assert_eq!(info.common_data_offset_from_end, Some(48));
    assert_eq!(info.nonsample_record_time_offset_from_end, Some(32));
    assert_eq!(info.nonsample_record_id_offset_from_end, Some(8));
    assert_eq!(info.sample_record_time_offset_from_start, Some(24));
    assert_eq!(info.sample_record_id_offset_from_start, Some(0));
}

#[test]
fn id_without_identifier() {
    let sf = SampleFormat::IP
        | SampleFormat::TID
        | SampleFormat::ADDR
        | SampleFormat::ID
        | SampleFormat::STREAM_ID
        | SampleFormat::CPU;
    let info = RecordParseInfo::from_attr(&attr(sf, AttrFlags::SAMPLE_ID_ALL, 0));
    assert_eq!(info.common_data_offset_from_end, Some(32));
    assert_eq!(info.nonsample_record_time_offset_from_end, None);
    assert_eq!(info.nonsample_record_id_offset_from_end, Some(16));
    assert_eq!(info.sample_record_time_offset_from_start, None);
    assert_eq!(info.sample_record_id_offset_from_start, Some(24));
}

#[test]
fn fields_outside_both_orders_change_nothing() {
    let base = SampleFormat::TIME | SampleFormat::ID;
    let more = base | SampleFormat::CALLCHAIN | SampleFormat::PERIOD | SampleFormat::RAW;
    let a = RecordParseInfo::from_attr(&attr(base, AttrFlags::SAMPLE_ID_ALL, 0));
    let b = RecordParseInfo::from_attr(&attr(more, AttrFlags::SAMPLE_ID_ALL, 0));
    assert_eq!(offsets(&a), offsets(&b));
}

#[test]
fn untagged_never_has_trailer() {
    for sf in [0u64, SampleFormat::TIME, SampleFormat::ID, SampleFormat::IDENTIFIER, u64::MAX] {
        let info = RecordParseInfo::from_attr(&attr(sf, !AttrFlags::SAMPLE_ID_ALL, 0));
        assert_eq!(info.common_data_offset_from_end, None);
        assert_eq!(info.nonsample_record_time_offset_from_end, None);
        assert_eq!(info.nonsample_record_id_offset_from_end, None);
    }
}

#[test]
fn identifier_fixes_id_position() {
    for other in [0u64, SampleFormat::IP, SampleFormat::ID | SampleFormat::CPU, u64::MAX] {
        let sf = other | SampleFormat::IDENTIFIER;
        let info = RecordParseInfo::from_attr(&attr(sf, AttrFlags::SAMPLE_ID_ALL, 0));
        assert_eq!(info.sample_record_id_offset_from_start, Some(0));
        assert_eq!(info.nonsample_record_id_offset_from_end, Some(8));
    }
}

#[test]
fn offsets_are_multiples_of_eight() {
    for sf in 0u64..0x400 {
        let spread = (sf & 0x3ff) | ((sf & 0x200) << 7);
        for flags in [0u64, AttrFlags::SAMPLE_ID_ALL] {
            let info = RecordParseInfo::from_attr(&attr(spread, flags, 0));
            for o in offsets(&info) {
                assert!(o.map_or(true, |v| v % 8 == 0));
            }
        }
    }
}

#[test]
fn adding_cpu_moves_offsets_outward() {
    let base = SampleFormat::TID | SampleFormat::TIME | SampleFormat::ID;
    let a = RecordParseInfo::from_attr(&attr(base, AttrFlags::SAMPLE_ID_ALL, 0));
    let b = RecordParseInfo::from_attr(&attr(base | SampleFormat::CPU, AttrFlags::SAMPLE_ID_ALL, 0));
    assert_eq!(a.common_data_offset_from_end, Some(24));
    assert_eq!(b.common_data_offset_from_end, Some(32));
    assert_eq!(a.nonsample_record_time_offset_from_end, Some(8));
    assert_eq!(b.nonsample_record_time_offset_from_end, Some(16));
    assert_eq!(a.nonsample_record_id_offset_from_end, Some(0));
    assert_eq!(b.nonsample_record_id_offset_from_end, Some(8));
    assert_eq!(a.sample_record_time_offset_from_start, b.sample_record_time_offset_from_start);
}

#[test]
fn adding_ip_moves_prefix_offsets_later() {
    let base = SampleFormat::TIME | SampleFormat::ID;
    let a = RecordParseInfo::from_attr(&attr(base, 0, 0));
    let b = RecordParseInfo::from_attr(&attr(base | SampleFormat::IP, 0, 0));
    assert_eq!(a.sample_record_time_offset_from_start, Some(0));
    assert_eq!(b.sample_record_time_offset_from_start, Some(8));
    assert_eq!(a.sample_record_id_offset_from_start, Some(8));
    assert_eq!(b.sample_record_id_offset_from_start, Some(16));
}

#[test]
fn adding_identifier_pins_id_offsets() {
    let base = SampleFormat::IP | SampleFormat::ID | SampleFormat::STREAM_ID | SampleFormat::CPU;
    let a = RecordParseInfo::from_attr(&attr(base, AttrFlags::SAMPLE_ID_ALL, 0));
    let b = RecordParseInfo::from_attr(&attr(
        base | SampleFormat::IDENTIFIER,
        AttrFlags::SAMPLE_ID_ALL,
        0,
    ));
    assert_eq!(a.sample_record_id_offset_from_start, Some(8));
    assert_eq!(b.sample_record_id_offset_from_start, Some(0));
    assert_eq!(a.nonsample_record_id_offset_from_end, Some(16));
    assert_eq!(b.nonsample_record_id_offset_from_end, Some(8));
}

#[test]
fn flag_tests() {
    let sf = SampleFormat(SampleFormat::TIME | SampleFormat::IP);
    assert!(sf.contains(SampleFormat::TIME));
    assert!(sf.contains(SampleFormat::IP | SampleFormat::TIME));
    assert!(!sf.contains(SampleFormat::TIME | SampleFormat::ID));
    assert!(AttrFlags(AttrFlags::SAMPLE_ID_ALL | AttrFlags::DISABLED).contains(AttrFlags::SAMPLE_ID_ALL));
    assert!(!AttrFlags(AttrFlags::DISABLED).contains(AttrFlags::SAMPLE_ID_ALL));
}
