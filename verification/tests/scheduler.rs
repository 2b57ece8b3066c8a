use upload::settings::DEFAULT_CONCURRENCY;
use upload::settings::DEFAULT_RETRIES;
use upload::AttemptResult;
use upload::ErrorKind;
use upload::FileStat;
use upload::Flow;
use upload::Probing;
use upload::Scheduler;
use upload::Settings;
use upload::Step;
use upload::TaskEvent;
use upload::UploadInfo;

fn paths(names: &[&str]) -> Vec<String> {
    names.iter().map(|n| n.to_string()).collect()
}

fn ok() -> AttemptResult {
    AttemptResult::Response { status: 200, body: String::new() }
}

fn run_upload(
    path: String,
    stat: Option<FileStat>,
    mut results: Vec<AttemptResult>,
    settings: &Settings,
) -> UploadInfo {
    results.reverse();
    let mut step = Probing::start(path).probed(stat, settings);
    loop {
        match step {
            Step::Attempt(uploading) => {
                step = uploading.attempted(results.pop().expect("a result for each attempt"));
            },
            Step::Done(info) => return info,
        }
    }
}

fn success(path: &str, bytes: u64) -> TaskEvent {
    let mut info = UploadInfo::new(path.to_string());
    info.set_bytes(bytes);
    TaskEvent::Finished(info.succeeded_after(10))
}

fn failure(path: &str, kind: ErrorKind) -> TaskEvent {
    TaskEvent::Finished(UploadInfo::new(path.to_string()).with_error(kind))
}

#[test]
fn settings_keep_what_they_were_made_with() {
    let settings = Settings::new("http://h/p".to_string(), "secret".to_string(), 10, 3, true);
    assert_eq!(settings.prefix(), "http://h/p");
    assert_eq!(settings.token(), "secret");
    assert_eq!(settings.concurrency(), 10);
    assert_eq!(settings.retries(), 3);
    assert!(settings.overwrite());
}

#[test]
fn defaults_are_ten_at_once_and_three_retries() {
    assert_eq!(DEFAULT_CONCURRENCY, 10);
    assert_eq!(DEFAULT_RETRIES, 3);
}

#[test]
fn token_becomes_the_auth_header() {
    let settings = Settings::new("p".to_string(), "abc-123".to_string(), 1, 1, false);
    assert_eq!(settings.auth_header(), Some(("x-auth-token".to_string(), "abc-123".to_string())));
    let tabbed = Settings::new("p".to_string(), "a\tb é".to_string(), 1, 1, false);
    assert_eq!(tabbed.auth_header(), Some(("x-auth-token".to_string(), "a\tb é".to_string())));
}

#[test]
fn token_with_control_characters_is_no_header() {
    let newline = Settings::new("p".to_string(), "abc\n".to_string(), 1, 1, false);
    assert_eq!(newline.auth_header(), None);
    let delete = Settings::new("p".to_string(), "a\u{7f}".to_string(), 1, 1, false);
    assert_eq!(delete.auth_header(), None);
    let nul = Settings::new("p".to_string(), "\0".to_string(), 1, 1, false);
    assert_eq!(nul.auth_header(), None);
}

#[test]
fn four_files_two_at_a_time() {
    let settings = Settings::new("http://h/p".to_string(), "t".to_string(), 2, 3, false);
    let files = paths(&["in/a", "in/b", "in/c", "in/d"]);
    let (size_a, size_b, size_c) = (1_000u64, 20_000u64, 300_000u64);
    let mut scheduler = Scheduler::new(files, &settings);
    let first = scheduler.start();
    assert_eq!(first, paths(&["in/a", "in/b"]));
    assert_eq!(scheduler.in_flight(), 2);

    // a succeeds at once; c takes its place
    let a = run_upload(
        first[0].clone(),
        Some(FileStat { is_file: true, len: size_a }),
        vec![ok()],
        &settings,
    );
    let event = TaskEvent::Finished(a);
    assert!(scheduler.can_handle(&event));
    let reaction = scheduler.on_event(event);
    assert_eq!(reaction.launch, Some("in/c".to_string()));
    assert_eq!(reaction.flow, Flow::Continue);
    assert!(reaction.notice.is_none());
    assert!(reaction.status.expect("a status").starts_with("\rUploaded 1/4 files, 0 errors 0|0 retries 0.00 MB"));

    // c succeeds at once; d takes its place
    let c = run_upload(
        "in/c".to_string(),
        Some(FileStat { is_file: true, len: size_c }),
        vec![ok()],
        &settings,
    );
    let reaction = scheduler.on_event(TaskEvent::Finished(c));
    assert_eq!(reaction.launch, Some("in/d".to_string()));
    assert_eq!(reaction.flow, Flow::Continue);
    assert_eq!(scheduler.in_flight(), 2);
    assert_eq!(scheduler.launched(), 4);

    // d is missing
    let d = run_upload("in/d".to_string(), None, vec![], &settings);
    assert_eq!(d.error(), Some(ErrorKind::ReadError));
    let reaction = scheduler.on_event(TaskEvent::Finished(d));
    assert_eq!(reaction.launch, None);
    assert_eq!(reaction.flow, Flow::Continue);

    // b succeeds after two retries
    let b = run_upload(
        first[1].clone(),
        Some(FileStat { is_file: true, len: size_b }),
        vec![
            AttemptResult::TransportFailed,
            AttemptResult::Response { status: 503, body: String::new() },
            ok(),
        ],
        &settings,
    );
    assert_eq!(b.retries(), 2);
    let reaction = scheduler.on_event(TaskEvent::Finished(b));
    assert_eq!(reaction.launch, None);
    assert_eq!(reaction.flow, Flow::Finished);
    assert!(reaction.status.expect("a status").starts_with("\rUploaded 3/4 files, 1 errors 1|2 retries 0.31 MB"));

    let progress = scheduler.progress();
    assert_eq!(progress.total(), 4);
    assert_eq!(progress.success(), 3);
    assert_eq!(progress.error(), 1);
    assert_eq!(progress.f_retries(), 1);
    assert_eq!(progress.n_retries(), 2);
    assert_eq!(progress.bytes(), size_a + size_b + size_c);
    assert_eq!(scheduler.in_flight(), 0);
    assert_eq!(scheduler.flow(), Flow::Finished);
    assert!(!scheduler.is_halted());
}

#[test]
fn rejected_token_stops_the_launches() {
    let settings = Settings::new("http://h/p".to_string(), "t".to_string(), 2, 3, false);
    let mut scheduler = Scheduler::new(paths(&["a", "b", "c", "d", "e"]), &settings);
    assert_eq!(scheduler.start().len(), 2);
    let reaction = scheduler.on_event(success("a", 5));
    assert_eq!(reaction.launch, Some("c".to_string()));
    let launched_before = scheduler.launched();
    assert_eq!(launched_before, 3);

    let reaction = scheduler.on_event(failure("b", ErrorKind::Unauthorized));
    assert_eq!(reaction.flow, Flow::Halted);
    assert_eq!(reaction.launch, None);
    assert_eq!(reaction.status, None);
    assert_eq!(reaction.notice, Some("Unauthorized: Check your token.".to_string()));
    assert!(scheduler.is_halted());
    assert_eq!(scheduler.launched(), launched_before);
    assert!(scheduler.launched() <= launched_before + settings.concurrency());
    // the rejected upload is not counted
    assert_eq!(scheduler.progress().success(), 1);
    assert_eq!(scheduler.progress().error(), 0);

    // what was in flight may still end: nothing is launched or counted
    let late = success("c", 7);
    assert!(scheduler.can_handle(&late));
    let reaction = scheduler.on_event(late);
    assert_eq!(reaction.flow, Flow::Halted);
    assert_eq!(reaction.launch, None);
    assert_eq!(reaction.status, None);
    assert_eq!(reaction.notice, None);
    assert_eq!(scheduler.launched(), launched_before);
    assert_eq!(scheduler.progress().success(), 1);
    assert!(scheduler.start().is_empty());
    assert_eq!(scheduler.launched(), launched_before);
    assert_eq!(scheduler.flow(), Flow::Halted);
}

#[test]
fn task_without_record_is_reported_and_replaced() {
    let settings = Settings::new("http://h/p".to_string(), "t".to_string(), 1, 3, false);
    let mut scheduler = Scheduler::new(paths(&["a", "b"]), &settings);
    assert_eq!(scheduler.start(), paths(&["a"]));
    let reaction = scheduler.on_event(TaskEvent::JoinFailed("task 7 panicked".to_string()));
    assert_eq!(reaction.notice, Some("Join Error: task 7 panicked".to_string()));
    assert_eq!(reaction.status, None);
    assert_eq!(reaction.launch, Some("b".to_string()));
    assert_eq!(reaction.flow, Flow::Continue);
    assert_eq!(scheduler.progress().success() + scheduler.progress().error(), 0);
    let reaction = scheduler.on_event(failure("b", ErrorKind::FileExists));
    assert_eq!(reaction.flow, Flow::Finished);
    assert_eq!(scheduler.progress().error(), 1);
}

#[test]
fn short_list_launches_fewer_than_the_limit() {
    let settings = Settings::new("http://h/p".to_string(), "t".to_string(), 10, 3, false);
    let mut scheduler = Scheduler::new(paths(&["a", "b", "c"]), &settings);
    assert_eq!(scheduler.start(), paths(&["a", "b", "c"]));
    assert_eq!(scheduler.in_flight(), 3);
    assert!(scheduler.start().is_empty());
    assert_eq!(scheduler.on_event(success("b", 1)).flow, Flow::Continue);
    assert_eq!(scheduler.on_event(success("a", 1)).flow, Flow::Continue);
    assert_eq!(scheduler.on_event(success("c", 1)).flow, Flow::Finished);
    assert_eq!(scheduler.progress().success(), 3);
}

#[test]
fn empty_batch_is_finished_at_once() {
    let settings = Settings::new("http://h/p".to_string(), "t".to_string(), 4, 3, false);
    let mut scheduler = Scheduler::new(Vec::new(), &settings);
    assert!(scheduler.start().is_empty());
    assert_eq!(scheduler.flow(), Flow::Finished);
    assert!(!scheduler.can_handle(&success("a", 1)));
    assert!(scheduler.status_bar().starts_with("Uploaded 0/0 files, 0 errors 0|0 retries 0.00 MB"));
}

#[test]
fn limit_of_zero_launches_nothing() {
    let settings = Settings::new("http://h/p".to_string(), "t".to_string(), 0, 3, false);
    let mut scheduler = Scheduler::new(paths(&["a", "b"]), &settings);
    assert!(scheduler.start().is_empty());
    assert_eq!(scheduler.in_flight(), 0);
    assert_eq!(scheduler.launched(), 0);
    assert_eq!(scheduler.flow(), Flow::Finished);
}

#[test]
fn window_never_exceeds_the_limit() {
    let settings = Settings::new("http://h/p".to_string(), "t".to_string(), 3, 3, false);
    let names = ["a", "b", "c", "d", "e", "f", "g"];
    let mut scheduler = Scheduler::new(paths(&names), &settings);
    let mut launched = scheduler.start().len();
    let mut handled = 0;
    while scheduler.flow() == Flow::Continue {
        assert!(scheduler.in_flight() <= 3);
        assert_eq!(scheduler.launched(), launched);
        assert!(launched <= handled + 3);
        let reaction = scheduler.on_event(success(names[handled], 1));
        handled += 1;
        if reaction.launch.is_some() {
            launched += 1;
        }
    }
    assert_eq!(handled, 7);
    assert_eq!(launched, 7);
    assert_eq!(scheduler.progress().success(), 7);
}
