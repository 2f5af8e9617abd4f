use rsdiskspeed::error::Error;
use rsdiskspeed::gen::{generate_offsets, generate_read_buffer, generate_write_block};
use rsdiskspeed::session::{blocks_count, elapsed_nanos, Benchmark};

fn session() -> Benchmark {
    Benchmark::new("/tmp/target".to_string(), 1, 1024, 1024).unwrap()
}

#[test]
fn new_session_is_empty() {
    let b = Benchmark::new("f".to_string(), 128, 1024, 512).unwrap();
    assert_eq!(b.file, "f");
    assert_eq!(b.write_mb, 128);
    assert_eq!(b.write_block_kb, 1024);
    assert_eq!(b.read_block_kb, 512);
    assert_eq!(b.write_results.len(), 0);
    assert_eq!(b.read_results.len(), 0);
    assert_eq!(b.bytes_written, 0);
}

#[test]
fn one_megabyte_in_one_block() {
    assert_eq!(blocks_count(1, 1024), 1);
    let mut b = session();
    b.write_test(1024 * 1024, 1, |_i, _block| Ok(7)).unwrap();
    assert_eq!(b.write_results.len(), 1);
    assert_eq!(b.bytes_written, 1_048_576);
}

#[test]
fn write_phase_records_one_sample_per_block() {
    let mut b = session();
    b.write_test(1024, 5, |i, _block| Ok(i as u64 + 1)).unwrap();
    assert_eq!(b.write_results.len(), 5);
    assert_eq!(b.write_results, vec![1, 2, 3, 4, 5]);
    assert_eq!(b.bytes_written, 5 * 1024);
}

#[test]
fn write_phase_hands_full_blocks() {
    let mut b = session();
    b.write_test(2048, 3, |_i, block: Vec<u8>| {
        assert_eq!(block.len(), 2048);
        Ok(1)
    })
    .unwrap();
    assert_eq!(b.bytes_written, 3 * 2048);
}

#[test]
fn rerunning_write_phase_clears_prior_samples() {
    let mut b = session();
    b.write_test(1024, 4, |_i, _block| Ok(3)).unwrap();
    assert_eq!(b.write_results.len(), 4);
    b.write_test(1024, 4, |_i, _block| Ok(9)).unwrap();
    assert_eq!(b.write_results.len(), 4);
    assert_eq!(b.write_results, vec![9, 9, 9, 9]);
}

#[test]
fn zero_total_size_writes_nothing() {
    assert_eq!(blocks_count(0, 1024), 0);
    let mut b = session();
    b.write_test(1024 * 1024, 0, |_i, _block| Ok(1)).unwrap();
    assert_eq!(b.write_results.len(), 0);
    assert_eq!(b.bytes_written, 0);
    assert!(b.print_result().is_none());
}

#[test]
fn write_failure_aborts_the_phase() {
    let mut b = session();
    let r = b.write_test(1024, 4, |i, _block| {
        if i == 2 {
            Err(Error::Io("disk full".to_string()))
        } else {
            Ok(1)
        }
    });
    let e = r.unwrap_err();
    assert!(e.is_io());
    assert_eq!(e.message().as_str(), "disk full");
    assert_eq!(b.write_results.len(), 2);
}

#[test]
fn read_phase_records_one_sample_per_block() {
    let mut b = session();
    b.read_test(1024, 6, |_i, _offset| Ok(2)).unwrap();
    assert_eq!(b.read_results.len(), 6);
    assert_eq!(b.read_results, vec![2, 2, 2, 2, 2, 2]);
}

#[test]
fn read_offsets_stay_within_the_inclusive_bound() {
    let offsets = generate_offsets(64, 4096);
    assert_eq!(offsets.len(), 64);
    for off in offsets {
        assert!(off <= 64 * 4096);
    }
}

#[test]
fn read_phase_offsets_within_bound() {
    let mut b = session();
    b.read_test(4096, 32, |_i, offset| {
        assert!(offset <= 32 * 4096);
        Ok(1)
    })
    .unwrap();
    assert_eq!(b.read_results.len(), 32);
}

#[test]
fn degenerate_offset_range_is_all_zeros() {
    let offsets = generate_offsets(4, 0);
    assert_eq!(offsets, vec![0, 0, 0, 0]);
}

#[test]
fn short_reads_do_not_fail_the_run() {
    // A read block larger than the written file: every offset is drawn
    // from a degenerate range, and short or empty reads still count.
    let mut b = session();
    b.read_test(0, 4, |_i, offset| {
        assert_eq!(offset, 0);
        Ok(0)
    })
    .unwrap();
    assert_eq!(b.read_results.len(), 4);
}

#[test]
fn read_failure_aborts_the_phase() {
    let mut b = session();
    let r = b.read_test(1024, 4, |i, _offset| {
        if i == 0 {
            Err(Error::Unexpected("boom".to_string()))
        } else {
            Ok(1)
        }
    });
    let e = r.unwrap_err();
    assert!(!e.is_io());
    assert_eq!(e.message().as_str(), "boom");
    assert_eq!(b.read_results.len(), 0);
}

#[test]
fn write_blocks_have_the_requested_size() {
    assert_eq!(generate_write_block(0).len(), 0);
    assert_eq!(generate_write_block(4096).len(), 4096);
}

#[test]
fn read_buffer_is_full_sized_and_patterned() {
    let buff = generate_read_buffer(300);
    assert_eq!(buff.len(), 300);
    assert_eq!(buff[0], 0);
    assert_eq!(buff[255], 255);
    assert_eq!(buff[256], 0);
    assert_eq!(buff[299], 43);
}

#[test]
fn elapsed_is_end_minus_start_clamped() {
    assert_eq!(elapsed_nanos(5, 12), 7);
    assert_eq!(elapsed_nanos(12, 12), 0);
    assert_eq!(elapsed_nanos(12, 5), 0);
}
