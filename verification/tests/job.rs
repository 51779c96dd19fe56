use jobs::job::Job;

#[derive(Debug, Clone, PartialEq)]
struct Foo {}

/// A clock reading in microseconds taken strictly after `t`, spinning until
/// the microsecond clock has ticked past it.
fn micros_after(t: i64) -> i64 {
    let mut now = chrono::Utc::now().timestamp_micros();
    let mut spins: u32 = 0;
    while now <= t && spins < 10_000_000 {
        now = chrono::Utc::now().timestamp_micros();
        spins += 1;
    }
    now
}

#[test]
fn it_creates_jobs_with_default_options() {
    let job = Job::new(Foo {});
    assert_eq!(job.data, Foo {});
    assert_eq!(job.tries, 0);
    assert_eq!(job.max_tries, 10);
    assert!(job.perform_at >= 0);
    assert!(job.perform_at < micros_after(job.perform_at));
    assert_eq!(&job.status, "draft");
}

#[test]
fn it_dies_once_it_has_reached_the_number_of_max_tries() {
    let mut job = Job::new(Foo {});

    for try_number in 0..10 {
        let previous_perform_at = job.perform_at.clone();
        job.retry();
        assert_eq!(job.tries, try_number + 1);
        assert_eq!(&job.status, "scheduled");
        assert!(job.perform_at > previous_perform_at);
    }

    job.retry();
    assert_eq!(&job.status, "dead");
    assert_eq!(job.tries, job.max_tries);
}

#[test]
fn it_can_marked_as_running() {
    let mut job = Job::new(Foo {});
    job.change_status("running");
    assert_eq!(&job.status, "running");
}

#[test]
fn retry_backoff_is_two_to_the_try_count_in_seconds() {
    let expected_seconds: [i64; 10] = [2, 4, 8, 16, 32, 64, 128, 256, 512, 1024];
    for k in 0..10usize {
        let mut job = Job::new(0u8);
        job.tries = k as u32;
        job.retry_at(5_000_000);
        assert_eq!(&job.status, "scheduled");
        assert_eq!(job.tries, k as u32 + 1);
        assert_eq!(job.perform_at, 5_000_000 + expected_seconds[k] * 1_000_000);
    }
}

#[test]
fn retry_at_the_budget_marks_dead_and_touches_nothing_else() {
    let mut job = Job::new(7i32);
    job.tries = 10;
    let id = job.id.clone();
    let perform_at = job.perform_at;
    job.retry_at(123);
    assert_eq!(&job.status, "dead");
    assert_eq!(job.tries, 10);
    assert_eq!(job.max_tries, 10);
    assert_eq!(job.perform_at, perform_at);
    assert_eq!(job.id, id);
    assert_eq!(job.data, 7i32);
}

#[test]
fn perform_in_shifts_the_schedule_time_and_saturates() {
    let mut job = Job::new(());
    job.perform_at = 1_000;
    job.perform_in(500);
    assert_eq!(job.perform_at, 1_500);
    job.perform_in(-2_000);
    assert_eq!(job.perform_at, -500);
    job.perform_in(i64::MAX);
    assert_eq!(job.perform_at, i64::MAX - 500);
    job.perform_in(i64::MAX);
    assert_eq!(job.perform_at, i64::MAX);
    job.perform_in(i64::MIN);
    job.perform_in(i64::MIN);
    assert_eq!(job.perform_at, i64::MIN);
}

#[test]
fn fresh_jobs_carry_a_hyphenated_unique_id() {
    let a = Job::new(());
    let b = Job::new(());
    assert_eq!(a.id.len(), 36);
    assert_eq!(b.id.len(), 36);
    assert_ne!(a.id, b.id);
}
