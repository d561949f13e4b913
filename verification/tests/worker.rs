use progress_gauge::worker::{TICK_INTERVAL_MS, WORKER_INCREMENT, WORKER_INTERVAL_MS};
use progress_gauge::{App, Event, ProgressWorker, Ratio};

fn ratio_of(event: Event) -> Ratio {
    match event {
        Event::ProgressUpdate(ratio) => ratio,
        other => panic!("the worker sent {:?}", other),
    }
}

#[test]
fn intervals_and_increment() {
    assert_eq!(TICK_INTERVAL_MS, 200);
    assert_eq!(WORKER_INTERVAL_MS, 100);
    assert_eq!(WORKER_INCREMENT, 100);
}

#[test]
fn new_worker_has_done_nothing() {
    assert_eq!(ProgressWorker::new(WORKER_INCREMENT).current(), Ratio::zero());
}

#[test]
fn each_step_adds_the_increment() {
    let mut worker = ProgressWorker::new(WORKER_INCREMENT);
    assert_eq!(ratio_of(worker.advance()).parts(), 100);
    assert_eq!(ratio_of(worker.advance()).parts(), 200);
    assert_eq!(worker.current().parts(), 200);
    let mut coarse = ProgressWorker::new(300);
    coarse.advance();
    coarse.advance();
    assert_eq!(ratio_of(coarse.advance()).parts(), 900);
}

#[test]
fn reports_never_go_down_and_stay_within_the_whole() {
    let mut worker = ProgressWorker::new(WORKER_INCREMENT);
    let mut previous = 0;
    for step in 1..=250u32 {
        let parts = ratio_of(worker.advance()).parts();
        assert!(parts >= previous);
        assert!(parts <= 10_000);
        assert_eq!(parts, (step * 100).min(10_000));
        previous = parts;
    }
}

#[test]
fn worker_reaches_the_whole_after_a_hundred_steps_and_stays() {
    let mut worker = ProgressWorker::new(WORKER_INCREMENT);
    for _ in 0..99 {
        assert!(!ratio_of(worker.advance()).is_full());
    }
    assert!(ratio_of(worker.advance()).is_full());
    for _ in 0..50 {
        assert_eq!(ratio_of(worker.advance()), Ratio::full());
    }
}

#[test]
fn uneven_increment_is_capped_at_the_whole() {
    let mut worker = ProgressWorker::new(3_000);
    assert_eq!(ratio_of(worker.advance()).parts(), 3_000);
    assert_eq!(ratio_of(worker.advance()).parts(), 6_000);
    assert_eq!(ratio_of(worker.advance()).parts(), 9_000);
    assert_eq!(ratio_of(worker.advance()).parts(), 10_000);
    assert_eq!(ratio_of(worker.advance()).parts(), 10_000);
}

#[test]
fn huge_increment_does_not_wrap() {
    let mut worker = ProgressWorker::new(u32::MAX);
    assert_eq!(ratio_of(worker.advance()), Ratio::full());
    assert_eq!(ratio_of(worker.advance()), Ratio::full());
}

#[test]
fn idle_worker_stays_at_zero() {
    let mut worker = ProgressWorker::new(0);
    assert_eq!(ratio_of(worker.advance()), Ratio::zero());
    assert_eq!(ratio_of(worker.advance()), Ratio::zero());
}

#[test]
fn app_shows_what_the_worker_reports() {
    let mut worker = ProgressWorker::new(WORKER_INCREMENT);
    let mut app = App::new();
    for _ in 0..37 {
        app.handle_event(worker.advance());
    }
    assert_eq!(app.progress().parts(), 3_700);
    assert_eq!(app.progress(), worker.current());
}
