use upload::progress::megabytes_shown;
use upload::progress::rate_shown;
use upload::text::push_decimal;
use upload::text::push_fixed2;
use upload::text::round_div;
use upload::ErrorKind;
use upload::UploadInfo;
use upload::UploadProgress;

fn success_of(path: &str, bytes: u64, retries: usize) -> UploadInfo {
    let mut info = UploadInfo::new(path.to_string());
    info.set_bytes(bytes);
    for _ in 0..retries {
        info.incr_retries();
    }
    info.succeeded_after(1_000)
}

fn failure_of(path: &str, bytes: u64, retries: usize, kind: ErrorKind) -> UploadInfo {
    let mut info = UploadInfo::new(path.to_string());
    info.set_bytes(bytes);
    for _ in 0..retries {
        info.incr_retries();
    }
    info.with_error(kind)
}

#[test]
fn test_progress_bar() {
    let mut progress = UploadProgress::new(10);
    // regular success and error uploads
    progress.update(&UploadInfo::new("test1.txt".to_string()).with_success(), false);
    progress.update(&UploadInfo::new("test2.txt".to_string()).with_error(ErrorKind::Other), false);
    progress.update(&UploadInfo::new("test3.txt".to_string()).with_success(), false);
    // upload with retries
    let mut info = UploadInfo::new("test4.txt".to_string());
    info.incr_retries();
    info.incr_retries();
    progress.update(&info.with_success(), false);
    let status = progress.status_bar();
    // timing is not deterministic, so we just check the beginning prior to
    // time info
    assert!(status.starts_with("Uploaded 3/10 files, 1 errors 1|2 retries 0.00 MB"));
}

#[test]
fn every_update_counts_once() {
    let mut progress = UploadProgress::new(6);
    let outcomes = vec![
        success_of("a", 10, 0),
        failure_of("b", 20, 0, ErrorKind::ReadError),
        success_of("c", 30, 2),
        failure_of("d", 40, 3, ErrorKind::Other),
        failure_of("e", 50, 0, ErrorKind::FileExists),
    ];
    let mut applied = 0;
    for outcome in &outcomes {
        assert!(progress.can_update(outcome));
        progress.update(outcome, false);
        applied += 1;
        assert_eq!(progress.success() + progress.error(), applied);
    }
    assert_eq!(progress.total(), 6);
    assert_eq!(progress.success(), 2);
    assert_eq!(progress.error(), 3);
    assert_eq!(progress.bytes(), 10 + 30);
    assert_eq!(progress.f_retries(), 2);
    assert_eq!(progress.n_retries(), 5);
}

#[test]
fn retried_success_counts_its_retries() {
    let mut progress = UploadProgress::new(3);
    progress.update(&success_of("a", 1, 4), false);
    assert_eq!(progress.f_retries(), 1);
    assert_eq!(progress.n_retries(), 4);
    assert_eq!(progress.success(), 1);
    assert_eq!(progress.error(), 0);
}

#[test]
fn retried_failure_counts_its_retries() {
    let mut progress = UploadProgress::new(3);
    progress.update(&failure_of("a", 1, 4, ErrorKind::Other), false);
    assert_eq!(progress.f_retries(), 1);
    assert_eq!(progress.n_retries(), 4);
    assert_eq!(progress.success(), 0);
    assert_eq!(progress.error(), 1);
    assert_eq!(progress.bytes(), 0);
}

#[test]
fn outcome_without_retry_leaves_retry_counters() {
    let mut progress = UploadProgress::new(3);
    progress.update(&success_of("a", 1, 2), false);
    progress.update(&success_of("b", 1, 0), false);
    progress.update(&failure_of("c", 1, 0, ErrorKind::ReadError), false);
    assert_eq!(progress.f_retries(), 1);
    assert_eq!(progress.n_retries(), 2);
}

#[test]
fn status_after_zero_updates() {
    let progress = UploadProgress::new(7);
    assert_eq!(
        progress.status_at(0),
        "Uploaded 0/7 files, 0 errors 0|0 retries 0.00 MB in 0.00 seconds (0.00 MB/s)"
    );
    assert_eq!(
        progress.status_at(12_345_678),
        "Uploaded 0/7 files, 0 errors 0|0 retries 0.00 MB in 12.35 seconds (0.00 MB/s)"
    );
    let status = progress.status_bar();
    assert!(status.starts_with("Uploaded 0/7 files, 0 errors 0|0 retries 0.00 MB in "));
    assert!(status.ends_with(" seconds (0.00 MB/s)"));
    assert_eq!(progress.success(), 0);
    assert_eq!(progress.error(), 0);
    assert_eq!(progress.f_retries(), 0);
    assert_eq!(progress.n_retries(), 0);
    assert_eq!(progress.bytes(), 0);
}

#[test]
fn status_shows_megabytes_seconds_and_rate() {
    let mut progress = UploadProgress::new(12);
    progress.update(&success_of("a", 1_572_864, 0), false);
    progress.update(&failure_of("b", 9, 1, ErrorKind::Other), false);
    assert_eq!(
        progress.status_at(2_000_000),
        "Uploaded 1/12 files, 1 errors 1|1 retries 1.50 MB in 2.00 seconds (0.75 MB/s)"
    );
    assert_eq!(
        progress.status_at(0),
        "Uploaded 1/12 files, 1 errors 1|1 retries 1.50 MB in 0.00 seconds (1500000.00 MB/s)"
    );
}

#[test]
fn update_hands_back_the_redraw_when_asked() {
    let mut progress = UploadProgress::new(2);
    let quiet = progress.update(&success_of("a", 1_048_576, 0), false);
    assert!(quiet.is_none());
    let redraw = progress.update(&success_of("b", 1_048_576, 0), true);
    let text = redraw.expect("a redraw was asked for");
    assert!(text.starts_with("\rUploaded 2/2 files, 0 errors 0|0 retries 2.00 MB in "));
    let again = progress.write_status_bar();
    assert!(again.starts_with("\rUploaded 2/2 files, 0 errors 0|0 retries 2.00 MB in "));
}

#[test]
fn absorbed_leaves_the_receiver_alone() {
    let progress = UploadProgress::new(2);
    let next = progress.absorbed(&success_of("a", 5, 1));
    assert_eq!(progress.success(), 0);
    assert_eq!(next.success(), 1);
    assert_eq!(next.bytes(), 5);
    assert_eq!(next.n_retries(), 1);
    assert_eq!(next.total(), 2);
}

#[test]
fn can_update_sees_the_limits() {
    let mut progress = UploadProgress::new(2);
    progress.update(&success_of("a", u64::MAX - 1, 0), false);
    assert!(progress.can_update(&success_of("b", 1, 0)));
    assert!(!progress.can_update(&success_of("b", 2, 0)));
    assert!(progress.can_update(&failure_of("b", 2, 0, ErrorKind::Other)));
    let mut retries = UploadProgress::new(2);
    retries.update(&success_of("a", 0, 3), false);
    let mut heavy = UploadInfo::new("h".to_string());
    heavy.incr_retries();
    assert!(retries.can_update(&heavy));
}

#[test]
fn megabytes_round_to_the_even_neighbour() {
    assert_eq!(megabytes_shown(0), 0);
    assert_eq!(megabytes_shown(1_048_576), 100);
    // 0.125 MB and 0.375 MB lie halfway between two hundredths
    assert_eq!(megabytes_shown(131_072), 12);
    assert_eq!(megabytes_shown(393_216), 38);
    assert_eq!(megabytes_shown(5_242), 0);
    assert_eq!(megabytes_shown(5_243), 1);
    assert_eq!(megabytes_shown(u64::MAX), 1_759_218_604_441_600);
}

#[test]
fn rate_divides_by_the_time_and_a_microsecond() {
    assert_eq!(rate_shown(0, 0), 0);
    assert_eq!(rate_shown(1_048_576, 999_999), 100);
    assert_eq!(rate_shown(1_048_576, 0), 100_000_000);
    assert_eq!(rate_shown(10_485_760, 3_999_999), 250);
    assert_eq!(rate_shown(u64::MAX, u128::MAX), 0);
    assert_eq!(rate_shown(u64::MAX, 1u128 << 100), 0);
}

#[test]
fn round_div_rounds_half_to_even() {
    assert_eq!(round_div(0, 3), 0);
    assert_eq!(round_div(1, 2), 0);
    assert_eq!(round_div(3, 2), 2);
    assert_eq!(round_div(5, 2), 2);
    assert_eq!(round_div(7, 2), 4);
    assert_eq!(round_div(7, 3), 2);
    assert_eq!(round_div(8, 3), 3);
    assert_eq!(round_div(u128::MAX, 1), u128::MAX);
    assert_eq!(round_div(u128::MAX, u128::MAX), 1);
    assert_eq!(round_div(u128::MAX - 1, u128::MAX), 1);
    assert_eq!(round_div(u128::MAX / 2, u128::MAX), 0);
}

#[test]
fn decimal_text_of_numbers() {
    let mut out = String::from("n=");
    push_decimal(&mut out, 0);
    out.push(',');
    push_decimal(&mut out, 7);
    out.push(',');
    push_decimal(&mut out, 10);
    out.push(',');
    push_decimal(&mut out, 9_080_706);
    out.push(',');
    push_decimal(&mut out, u128::MAX);
    assert_eq!(out, "n=0,7,10,9080706,340282366920938463463374607431768211455");
}

#[test]
fn fixed_text_has_two_places() {
    let mut out = String::new();
    push_fixed2(&mut out, 0);
    out.push(' ');
    push_fixed2(&mut out, 5);
    out.push(' ');
    push_fixed2(&mut out, 50);
    out.push(' ');
    push_fixed2(&mut out, 123_456);
    assert_eq!(out, "0.00 0.05 0.50 1234.56");
}
