use multihart::sbi::EID_TIME;
use multihart::timer::{read_time, schedule_next, INTERVAL};

#[test]
fn read_time_returns_the_mid_read_counter() {
    // High half steady: the protocol answers the counter value at the
    // low read, exactly.
    assert_eq!(read_time(&vec![5, 6, 7]), Some(6));
    let t = 0x0000_0007_FFFF_FFF0u64;
    assert_eq!(read_time(&vec![t, t + 5, t + 9]), Some(t + 5));
}

#[test]
fn read_time_retries_across_a_rollover() {
    // The low 32 bits roll over between the two high reads: the first
    // triple is rejected, the second one answers.
    let before = 0x0000_0003_FFFF_FFFEu64;
    let after = 0x0000_0004_0000_0001u64;
    let samples = vec![
        before,
        before + 1,
        after, // high halves differ: retry
        after + 1,
        after + 2,
        after + 3, // high halves agree: answer
    ];
    assert_eq!(read_time(&samples), Some(after + 2));
}

#[test]
fn read_time_reports_when_every_triple_rolled() {
    let samples = vec![0x0_FFFF_FFFFu64, 0x1_0000_0000, 0x1_FFFF_FFFF];
    assert_eq!(read_time(&samples), None);
    assert_eq!(read_time(&vec![]), None);
    assert_eq!(read_time(&vec![1, 2]), None);
}

#[test]
fn read_time_is_monotonic_over_many_rollovers() {
    // A simulated counter whose low half repeatedly rolls during reads:
    // across 10000 protocol runs the answers never decrease.
    let mut now: u64 = 0x0000_0000_FFFF_0000;
    let mut last: u64 = 0;
    let mut retries = 0u32;
    for i in 0..10_000u64 {
        // Three accesses with the counter advancing between them, and a
        // fallback triple for the runs where the low half rolls over
        // mid-read: having just crossed a boundary, the retry cannot
        // cross another.
        let step = 1 + (i % 7);
        if i % 16 == 0 {
            // Park the counter one tick below the next 32-bit boundary so
            // this run's low half rolls over mid-read.
            now = (((now >> 32) + 1) << 32) - 1;
        }
        let end = now + 2 * step;
        let samples = vec![now, now + step, end, end, end + 1, end + 2];
        if (now >> 32) != (end >> 32) {
            retries += 1;
        }
        now = end + 2 + (i % 5) * 0x3FFF_FFF7;
        let value = read_time(&samples).expect("a steady triple exists");
        assert!(value >= last, "time went backwards: {value} < {last}");
        // The answer is one of the sampled counter values, never
        // fabricated.
        assert!(samples.contains(&value));
        last = value;
    }
    // The scenario did exercise the rollover path.
    assert!(retries > 0);
}

#[test]
fn schedule_next_arms_one_interval_ahead() {
    assert_eq!(INTERVAL, 100_000);
    let call = schedule_next(7_000_000);
    assert_eq!(call.extension, EID_TIME);
    assert_eq!(call.function, 0);
    assert_eq!(call.arg0, 7_100_000usize);
    assert_eq!(call.arg1, 0);
}
