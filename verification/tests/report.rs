use rsdiskspeed::session::Benchmark;

fn completed_session() -> Benchmark {
    let mut b = Benchmark::new("/tmp/target".to_string(), 1, 1024, 1024).unwrap();
    b.write_test(1024 * 1024, 1, |_i, _block| Ok(2_000_000_000)).unwrap();
    b.read_test(1024 * 1024, 1, |_i, _offset| Ok(1_000_000_000)).unwrap();
    b
}

#[test]
fn report_shows_exact_times_and_throughput() {
    let b = completed_session();
    let report = b.print_result().unwrap();
    assert_eq!(
        report,
        "\n\nWritten 1 MB in 2.0000 s\nWrite speed is 0.50 MB/s\n  max: 0.50, min: 0.50\
         \n\nRead 1 x 1024 KB blocks in 1.0000 s\nRead speed is 1.00 MB/s\n  max: 1.00, min: 1.00\n"
    );
}

#[test]
fn report_pads_fractional_digits_with_zeros() {
    let mut b = Benchmark::new("/tmp/target".to_string(), 2, 1024, 512).unwrap();
    // 1.0005 s and 0.2500 s written; reads of 0.0500 s each.
    b.write_test(1024 * 1024, 2, |i, _block| {
        if i == 0 {
            Ok(1_000_500_000)
        } else {
            Ok(250_000_000)
        }
    })
    .unwrap();
    b.read_test(512 * 1024, 4, |_i, _offset| Ok(50_000_000)).unwrap();
    let report = b.print_result().unwrap();
    // write: 2048 KB in 1.2505 s -> 1.59 MB/s average; fastest block
    // 1024 KB in 0.25 s -> 4.00 MB/s, slowest in 1.0005 s -> 0.99 MB/s.
    // read: 4 x 512 KB in 0.2000 s -> 10.00 MB/s; each 512 KB block in
    // 0.05 s is also 10.00 MB/s.
    assert_eq!(
        report,
        "\n\nWritten 2 MB in 1.2505 s\nWrite speed is 1.59 MB/s\n  max: 4.00, min: 0.99\
         \n\nRead 4 x 512 KB blocks in 0.2000 s\nRead speed is 10.00 MB/s\n  max: 10.00, min: 10.00\n"
    );
}

#[test]
fn zero_duration_fastest_block_shows_a_sentinel() {
    let mut b = Benchmark::new("/tmp/target".to_string(), 1, 1024, 1024).unwrap();
    b.write_test(1024 * 1024, 2, |i, _block| {
        if i == 0 {
            Ok(0)
        } else {
            Ok(2_000_000_000)
        }
    })
    .unwrap();
    b.read_test(1024 * 1024, 1, |_i, _offset| Ok(1_000_000_000)).unwrap();
    let report = b.print_result().unwrap();
    assert!(report.contains("max: n/a, min: 0.50"));
}

#[test]
fn no_report_without_read_samples() {
    let mut b = Benchmark::new("/tmp/target".to_string(), 1, 1024, 1024).unwrap();
    b.write_test(1024 * 1024, 1, |_i, _block| Ok(2_000_000_000)).unwrap();
    assert!(b.print_result().is_none());
}

#[test]
fn no_report_from_zero_sum_samples() {
    let mut b = Benchmark::new("/tmp/target".to_string(), 1, 1024, 1024).unwrap();
    b.write_test(1024 * 1024, 1, |_i, _block| Ok(0)).unwrap();
    b.read_test(1024 * 1024, 1, |_i, _offset| Ok(1)).unwrap();
    assert!(b.print_result().is_none());
}
