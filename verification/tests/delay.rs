use futures::task::waker;
use futures::task::ArcWake;
use mini_tokio::Clock;
use mini_tokio::Delay;
use mini_tokio::DelayPoll;
use mini_tokio::Timer;
use std::sync::atomic::AtomicUsize;
use std::sync::atomic::Ordering;
use std::sync::Arc;
use std::task::Context;
use std::task::Waker;

/// A waker's target that counts how often it is woken.
struct WakeCount {
    wakes: AtomicUsize,
}

impl ArcWake for WakeCount {
    fn wake_by_ref(arc_self: &Arc<Self>) {
        arc_self.wakes.fetch_add(1, Ordering::SeqCst);
    }
}

fn counting_waker() -> (Waker, Arc<WakeCount>) {
    let count = Arc::new(WakeCount { wakes: AtomicUsize::new(0) });
    (waker(count.clone()), count)
}

fn is_ready(answer: &DelayPoll) -> bool {
    matches!(answer, DelayPoll::Ready)
}

fn is_armed(answer: &DelayPoll) -> bool {
    matches!(answer, DelayPoll::Armed(_))
}

fn is_waiting(answer: &DelayPoll) -> bool {
    matches!(answer, DelayPoll::Waiting)
}

fn timer_of(answer: DelayPoll) -> Timer {
    match answer {
        DelayPoll::Armed(timer) => timer,
        _ => panic!("no timer was handed out"),
    }
}

#[test]
fn new_delay_has_the_given_deadline() {
    assert_eq!(Delay::new(0).deadline(), 0);
    assert_eq!(Delay::new(12_345).deadline(), 12_345);
    assert_eq!(Delay::new(u64::MAX).deadline(), u64::MAX);
}

#[test]
fn poll_before_deadline_is_pending() {
    let (waker, _) = counting_waker();
    let mut delay = Delay::new(100);
    assert!(is_armed(&delay.poll_at(0, &waker)));
    assert!(is_waiting(&delay.poll_at(1, &waker)));
    assert!(is_waiting(&delay.poll_at(99, &waker)));
}

#[test]
fn poll_at_deadline_is_ready() {
    let (waker, _) = counting_waker();
    let mut delay = Delay::new(100);
    assert!(is_ready(&delay.poll_at(100, &waker)));
}

#[test]
fn poll_after_deadline_is_ready() {
    let (waker, _) = counting_waker();
    let mut delay = Delay::new(100);
    assert!(is_ready(&delay.poll_at(101, &waker)));
    assert!(is_ready(&delay.poll_at(u64::MAX, &waker)));
}

#[test]
fn deadline_zero_is_ready_at_once() {
    let (waker, _) = counting_waker();
    let mut delay = Delay::new(0);
    assert!(is_ready(&delay.poll_at(0, &waker)));
}

#[test]
fn ready_comes_at_the_deadline_however_many_polls_came_before() {
    let (waker, _) = counting_waker();
    for pending_polls in [0u64, 1, 2, 10, 1000] {
        let mut delay = Delay::new(5_000);
        for now in 0..pending_polls {
            assert!(!is_ready(&delay.poll_at(now, &waker)));
        }
        assert!(!is_ready(&delay.poll_at(4_999, &waker)));
        assert!(is_ready(&delay.poll_at(5_000, &waker)));
    }
}

#[test]
fn a_late_first_poll_hands_out_no_timer() {
    let (waker, count) = counting_waker();
    let mut delay = Delay::new(10);
    assert!(is_ready(&delay.poll_at(10, &waker)));
    assert!(is_ready(&delay.poll_at(11, &waker)));
    assert_eq!(count.wakes.load(Ordering::SeqCst), 0);
}

#[test]
fn only_the_first_pending_poll_hands_out_a_timer() {
    let (waker, _) = counting_waker();
    let mut delay = Delay::new(1_000_000);
    let mut timers = 0;
    for now in 0..500u64 {
        if is_armed(&delay.poll_at(now, &waker)) {
            timers += 1;
        }
    }
    assert_eq!(timers, 1);
    assert!(is_ready(&delay.poll_at(1_000_000, &waker)));
    assert!(is_ready(&delay.poll_at(1_000_001, &waker)));
}

#[test]
fn polls_out_of_order_still_hand_out_one_timer() {
    let (waker, _) = counting_waker();
    let mut delay = Delay::new(50);
    assert!(is_armed(&delay.poll_at(40, &waker)));
    assert!(is_ready(&delay.poll_at(60, &waker)));
    assert!(is_waiting(&delay.poll_at(10, &waker)));
    assert!(is_ready(&delay.poll_at(50, &waker)));
}

#[test]
fn timer_remaining_is_the_distance_to_the_deadline() {
    let (waker, _) = counting_waker();
    let mut delay = Delay::new(1_000);
    let timer = timer_of(delay.poll_at(250, &waker));
    assert_eq!(timer.remaining(0), 1_000);
    assert_eq!(timer.remaining(250), 750);
    assert_eq!(timer.remaining(999), 1);
    assert_eq!(timer.remaining(1_000), 0);
    assert_eq!(timer.remaining(1_001), 0);
    assert_eq!(timer.remaining(u64::MAX), 0);
}

#[test]
fn timer_remaining_at_the_far_end_of_the_clock() {
    let (waker, _) = counting_waker();
    let mut delay = Delay::new(u64::MAX);
    let timer = timer_of(delay.poll_at(0, &waker));
    assert_eq!(timer.remaining(0), u64::MAX);
    assert_eq!(timer.remaining(u64::MAX - 1), 1);
    assert_eq!(timer.remaining(u64::MAX), 0);
}

#[test]
fn fire_wakes_the_registered_waker() {
    let (waker, count) = counting_waker();
    let mut delay = Delay::new(100);
    let timer = timer_of(delay.poll_at(0, &waker));
    assert_eq!(count.wakes.load(Ordering::SeqCst), 0);
    timer.fire();
    assert_eq!(count.wakes.load(Ordering::SeqCst), 1);
    timer.fire();
    assert_eq!(count.wakes.load(Ordering::SeqCst), 2);
}

#[test]
fn a_later_poll_with_another_waker_replaces_the_registered_one() {
    let (first, first_count) = counting_waker();
    let (second, second_count) = counting_waker();
    let mut delay = Delay::new(100);
    let timer = timer_of(delay.poll_at(0, &first));
    assert!(is_waiting(&delay.poll_at(1, &second)));
    timer.fire();
    assert_eq!(first_count.wakes.load(Ordering::SeqCst), 0);
    assert_eq!(second_count.wakes.load(Ordering::SeqCst), 1);
}

#[test]
fn a_later_poll_with_the_same_waker_keeps_it() {
    let (first, count) = counting_waker();
    let again = first.clone();
    let mut delay = Delay::new(100);
    let timer = timer_of(delay.poll_at(0, &first));
    assert!(is_waiting(&delay.poll_at(1, &again)));
    assert!(is_waiting(&delay.poll_at(2, &first)));
    timer.fire();
    assert_eq!(count.wakes.load(Ordering::SeqCst), 1);
}

#[test]
fn a_ready_poll_leaves_the_registered_waker_alone() {
    let (first, first_count) = counting_waker();
    let (second, second_count) = counting_waker();
    let mut delay = Delay::new(100);
    let timer = timer_of(delay.poll_at(0, &first));
    assert!(is_ready(&delay.poll_at(100, &second)));
    timer.fire();
    assert_eq!(first_count.wakes.load(Ordering::SeqCst), 1);
    assert_eq!(second_count.wakes.load(Ordering::SeqCst), 0);
}

#[test]
fn clock_reading_keeps_what_fits() {
    assert_eq!(Clock::reading(0), 0);
    assert_eq!(Clock::reading(1), 1);
    assert_eq!(Clock::reading(10_000_000), 10_000_000);
    assert_eq!(Clock::reading(u64::MAX as u128 - 1), u64::MAX - 1);
    assert_eq!(Clock::reading(u64::MAX as u128), u64::MAX);
}

#[test]
fn clock_reading_stops_at_the_end_of_the_clock() {
    assert_eq!(Clock::reading(u64::MAX as u128 + 1), u64::MAX);
    assert_eq!(Clock::reading(1u128 << 64), u64::MAX);
    assert_eq!(Clock::reading(u128::MAX), u64::MAX);
}

#[test]
fn clock_never_runs_backwards() {
    let clock = Clock::new();
    let mut last = clock.now();
    for _ in 0..1000 {
        let now = clock.now();
        assert!(now >= last);
        last = now;
    }
}

#[test]
fn delay_after_lies_the_given_time_ahead() {
    let clock = Clock::new();
    let before = clock.now();
    let delay = Delay::after(&clock, 1_000_000);
    let after = clock.now();
    assert!(delay.deadline() >= before + 1_000_000);
    assert!(delay.deadline() <= after + 1_000_000);
}

#[test]
fn delay_after_reading_adds_the_wait_to_the_reading() {
    assert_eq!(Delay::after_reading(0, 0).deadline(), 0);
    assert_eq!(Delay::after_reading(5, 10).deadline(), 15);
    assert_eq!(Delay::after_reading(1_000_000, 10_000_000).deadline(), 11_000_000);
    assert_eq!(Delay::after_reading(u64::MAX - 10, 10).deadline(), u64::MAX);
}

#[test]
fn delay_after_reading_stops_at_the_end_of_the_clock() {
    assert_eq!(Delay::after_reading(u64::MAX - 9, 10).deadline(), u64::MAX);
    assert_eq!(Delay::after_reading(u64::MAX, 1).deadline(), u64::MAX);
    assert_eq!(Delay::after_reading(1, u64::MAX).deadline(), u64::MAX);
    assert_eq!(Delay::after_reading(u64::MAX, u64::MAX).deadline(), u64::MAX);
}

#[test]
fn delay_after_reading_is_not_armed() {
    let (waker, _) = counting_waker();
    let mut delay = Delay::after_reading(5, 10);
    assert!(is_armed(&delay.poll_at(14, &waker)));
    assert!(is_ready(&delay.poll_at(15, &waker)));
}

#[test]
fn delay_after_stops_at_the_end_of_the_clock() {
    let clock = Clock::new();
    assert_eq!(Delay::after(&clock, u64::MAX).deadline(), u64::MAX);
}

#[test]
fn poll_by_the_clock_is_ready_for_a_past_deadline() {
    let clock = Clock::new();
    let (waker, _) = counting_waker();
    let mut cx = Context::from_waker(&waker);
    let mut delay = Delay::new(0);
    assert!(is_ready(&delay.poll(&clock, &mut cx)));
}

#[test]
fn poll_by_the_clock_registers_the_waker_of_the_context() {
    let clock = Clock::new();
    let (waker, count) = counting_waker();
    let mut cx = Context::from_waker(&waker);
    let mut delay = Delay::new(u64::MAX);
    let timer = timer_of(delay.poll(&clock, &mut cx));
    assert!(is_waiting(&delay.poll(&clock, &mut cx)));
    assert!(timer.wait_time(&clock) <= u64::MAX);
    assert!(timer.wait_time(&clock) > 0);
    timer.fire();
    assert_eq!(count.wakes.load(Ordering::SeqCst), 1);
}

#[test]
fn wait_time_is_zero_once_the_deadline_has_passed() {
    let clock = Clock::new();
    let (waker, _) = counting_waker();
    let mut delay = Delay::new(1);
    let timer = timer_of(delay.poll_at(0, &waker));
    while clock.now() < 1 {}
    assert_eq!(timer.wait_time(&clock), 0);
}
