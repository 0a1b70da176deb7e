use crate_tally::retry::{Retry, Step, ATTEMPTS};

fn run(mut retry: Retry, outcomes: &[Result<u32, u32>]) -> (Result<u32, u32>, usize) {
    let mut made = 0;
    loop {
        let outcome = outcomes[made];
        made += 1;
        match retry.next(outcome) {
            Step::Done(result) => return (result, made),
            Step::Again(rest) => retry = rest,
        }
    }
}

#[test]
fn zero_attempts_cannot_be_built() {
    assert!(Retry::new(0).is_none());
    assert_eq!(Retry::new(1).unwrap().attempts_left(), 1);
    assert_eq!(Retry::standard().attempts_left(), 32);
    assert_eq!(ATTEMPTS, 32);
}

#[test]
fn success_on_the_last_attempt_is_returned() {
    let mut outcomes: Vec<Result<u32, u32>> = (1..=31).map(Err).collect();
    outcomes.push(Ok(32));
    assert_eq!(run(Retry::standard(), &outcomes), (Ok(32), 32));
}

#[test]
fn the_last_error_is_returned() {
    let outcomes: Vec<Result<u32, u32>> = (1..=40).map(Err).collect();
    assert_eq!(run(Retry::standard(), &outcomes), (Err(32), 32));
}

#[test]
fn the_first_success_ends_the_step() {
    let outcomes = [Err(1), Err(2), Ok(3), Ok(4), Err(5)];
    assert_eq!(run(Retry::new(5).unwrap(), &outcomes), (Ok(3), 3));
    assert_eq!(run(Retry::new(2).unwrap(), &outcomes), (Err(2), 2));
    assert_eq!(run(Retry::new(1).unwrap(), &outcomes), (Err(1), 1));
}

#[test]
fn a_failure_leaves_one_attempt_less() {
    let step: Step<u32, u32> = Retry::new(3).unwrap().next(Err(9));
    assert_eq!(step, Step::Again(Retry::new(2).unwrap()));
    let step: Step<u32, u32> = Retry::new(3).unwrap().next(Ok(9));
    assert_eq!(step, Step::Done(Ok(9)));
}

#[test]
fn run_returns_the_success_of_the_last_attempt() {
    let calls = std::cell::Cell::new(0u32);
    let result: Result<u32, u32> = Retry::standard().run(|| {
        calls.set(calls.get() + 1);
        if calls.get() < 32 {
            Err(calls.get())
        } else {
            Ok(calls.get())
        }
    });
    assert_eq!(result, Ok(32));
    assert_eq!(calls.get(), 32);
}

#[test]
fn run_returns_the_last_error() {
    let calls = std::cell::Cell::new(0u32);
    let result: Result<u32, u32> = Retry::standard().run(|| {
        calls.set(calls.get() + 1);
        Err(calls.get())
    });
    assert_eq!(result, Err(32));
    assert_eq!(calls.get(), 32);
}

#[test]
fn run_stops_at_the_first_success() {
    let calls = std::cell::Cell::new(0u32);
    let result: Result<u32, u32> = Retry::new(10).unwrap().run(|| {
        calls.set(calls.get() + 1);
        if calls.get() == 3 {
            Ok(7)
        } else {
            Err(calls.get())
        }
    });
    assert_eq!(result, Ok(7));
    assert_eq!(calls.get(), 3);
}
