use std::cell::Cell;
use std::sync::{Arc, Mutex};

use thread_scoped::{scoped, JoinGuard, ScopedDetach};

/// A thread stand-in whose work runs when the handle is waited on. A panic of the work unwinds
/// out of the wait, into the one who waits.
struct Deferred<F>(F);

fn defer<F>(work: F) -> Deferred<F> {
    Deferred(work)
}

fn run<T, F: FnOnce() -> T>(handle: Deferred<F>) -> Result<T, String> {
    Ok((handle.0)())
}

/// A thread stand-in whose work ended in a panic that nobody has waited for.
struct Crashed;

fn crash<F>(_work: F) -> Crashed {
    Crashed
}

#[test]
fn test_scoped_stack() {
    let mut a = 5;
    scoped(
        || {
            a = 2;
        },
        defer,
    )
    .join(run);
    assert_eq!(a, 2);
}

#[test]
fn test_join_success() {
    assert!(scoped(move || -> String { "Success!".to_string() }, defer).join(run) == "Success!");
}

#[test]
fn test_scoped_success() {
    let res = scoped(move || -> String { "Success!".to_string() }, defer).join(run);
    assert!(res == "Success!");
}

#[test]
#[should_panic]
fn test_scoped_panic() {
    scoped(|| panic!(), defer).join(run);
}

#[test]
#[should_panic]
fn test_scoped_implicit_panic() {
    scoped(|| panic!(), defer).implicit_join(run);
}

#[test]
fn join_waits_on_the_handle_that_spawn_returned() {
    let mut guard = scoped(|| 0u32, |_work| 41u32);
    let joined = guard.join(|handle: u32| Ok::<u32, String>(handle + 1));
    assert_eq!(joined, 42);
}

#[test]
fn join_returns_the_value_unchanged() {
    let mut guard = scoped(|| vec![3u8, 1, 2], defer);
    assert_eq!(guard.join(run), vec![3u8, 1, 2]);
}

#[test]
fn join_leaves_the_guard_spent() {
    let mut guard = scoped(|| 7u32, defer);
    assert!(guard.is_armed());
    assert_eq!(guard.join(run), 7);
    assert!(!guard.is_armed());
    assert!(guard.release().is_none());
}

#[test]
fn implicit_join_makes_the_mutation_visible() {
    let mut flag = 5;
    {
        let mut guard = scoped(
            || {
                flag = 2;
            },
            defer,
        );
        guard.implicit_join(run);
    }
    assert_eq!(flag, 2);
}

#[test]
fn implicit_join_waits_once_and_leaves_the_guard_spent() {
    let waits = Cell::new(0u32);
    let mut guard = scoped(|| "Success!".to_string(), |_work| 1u32);
    guard.implicit_join(|_handle: u32| {
        waits.set(waits.get() + 1);
        Ok::<String, String>("Success!".to_string())
    });
    assert_eq!(waits.get(), 1);
    assert!(!guard.is_armed());
}

#[test]
fn implicit_join_after_join_waits_for_nothing() {
    let waits = Cell::new(0u32);
    let mut guard = scoped(|| 7u32, |_work| 1u32);
    let joined = guard.join(|handle: u32| {
        waits.set(waits.get() + 1);
        Ok::<u32, String>(handle)
    });
    assert_eq!(joined, 1);
    guard.implicit_join(|handle: u32| {
        waits.set(waits.get() + 1);
        Ok::<u32, String>(handle)
    });
    assert_eq!(waits.get(), 1);
}

#[test]
fn implicit_join_after_release_waits_for_nothing() {
    let waits = Cell::new(0u32);
    let mut guard = scoped(|| 7u32, |_work| 1u32);
    assert_eq!(guard.release(), Some(1));
    guard.implicit_join(|handle: u32| {
        waits.set(waits.get() + 1);
        Ok::<u32, String>(handle)
    });
    assert_eq!(waits.get(), 0);
}

#[test]
fn thread_shows_the_guarded_handle() {
    let guard = scoped(|| 0u32, |_work| 9u32);
    assert_eq!(*guard.thread(), 9);
    assert_eq!(*guard.thread(), 9);
    assert!(guard.is_armed());
}

#[test]
fn release_hands_the_handle_out_once() {
    let mut guard = scoped(|| 0u32, |_work| 9u32);
    assert_eq!(guard.release(), Some(9));
    assert!(!guard.is_armed());
    assert_eq!(guard.release(), None);
}

#[test]
fn scoped_starts_the_closure_it_was_given() {
    let started = Cell::new(0u32);
    let guard = scoped(
        || 5u32,
        |work: _| {
            started.set(started.get() + 1);
            run::<u32, _>(defer(work))
        },
    );
    assert_eq!(started.get(), 1);
    assert_eq!(*guard.thread(), Ok(5));
}

#[test]
fn detach_does_not_wait() {
    let ran = Arc::new(Mutex::new(false));
    let seen = ran.clone();
    let guard: JoinGuard<'static, _> = scoped(move || *seen.lock().unwrap() = true, defer);
    guard.detach();
    assert!(!*ran.lock().unwrap());
}

#[test]
fn detach_does_not_pass_a_panic_on() {
    let guard: JoinGuard<'static, Crashed> = scoped(|| 7u32, crash);
    guard.detach();
}
