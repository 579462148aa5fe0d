use std::sync::atomic::{AtomicU32, Ordering};
use tempref::mutex::Temp;
use tempref::poison::{PoisonError, TryLockError};

#[test]
fn mutex_release_resets_whatever_was_written() {
    let mut workspace = Temp::new(vec![1u8; 128], |v: &mut Vec<u8>| v.fill(0));
    let mut guard = workspace.lock().ok().unwrap();
    guard.fill(2);
    assert_eq!(*guard, vec![2u8; 128]);
    guard.release();
    let guard = workspace.try_lock().ok().unwrap();
    assert_eq!(*guard, vec![0u8; 128]);
    guard.release();
    assert!(!workspace.is_poisoned());
    assert_eq!(workspace.into_inner().unwrap(), vec![0u8; 128]);
}

#[test]
fn mutex_release_runs_the_reset_function_once() {
    let runs = AtomicU32::new(0);
    let mut workspace = Temp::new(1u8, |n: &mut u8| {
        runs.fetch_add(1, Ordering::SeqCst);
        *n = 0;
    });
    let guard = workspace.lock().ok().unwrap();
    assert_eq!(runs.load(Ordering::SeqCst), 0);
    guard.release();
    assert_eq!(runs.load(Ordering::SeqCst), 1);
    assert!(workspace.reset().is_ok());
    assert_eq!(runs.load(Ordering::SeqCst), 2);
    assert!(workspace.try_reset().is_ok());
    assert_eq!(runs.load(Ordering::SeqCst), 3);
}

#[test]
fn mutex_constructors() {
    let mut plain = Temp::new(9u32, |n: &mut u32| *n = 1);
    let guard = plain.lock().ok().unwrap();
    assert_eq!(*guard, 9);
    guard.release();
    let with = Temp::new_with(9u32, |n: &mut u32| *n = 1);
    assert_eq!(with.into_inner().unwrap(), 1);
    let default: Temp<u32, _> = Temp::new_default(|n: &mut u32| *n = 1);
    assert_eq!(default.into_inner().unwrap(), 0);
    let default_with: Temp<u32, _> = Temp::new_default_with(|n: &mut u32| *n = 1);
    assert_eq!(default_with.into_inner().unwrap(), 1);
}

#[test]
fn mutex_unreleased_handle_keeps_the_lock() {
    let mut workspace = Temp::new(vec![1, 2], |v: &mut Vec<i32>| v.clear());
    {
        let mut guard = workspace.try_lock().ok().unwrap();
        guard.push(3);
    }
    assert!(matches!(workspace.try_lock(), Err(TryLockError::WouldBlock)));
    assert!(matches!(workspace.try_reset(), Err(TryLockError::WouldBlock)));
    assert!(!workspace.is_poisoned());
    assert_eq!(workspace.into_inner().unwrap(), vec![1, 2, 3]);
}

#[test]
fn mutex_failed_holder_poisons_and_loses_nothing() {
    let mut workspace = Temp::new(vec![1u8; 4], |v: &mut Vec<u8>| v.fill(0));
    let mut guard = workspace.lock().ok().unwrap();
    guard.fill(9);
    guard.abandon();
    assert!(workspace.is_poisoned());

    match workspace.lock() {
        Ok(_) => panic!("a poisoned workspace granted plain access"),
        Err(error) => {
            assert_eq!(**error.get_ref(), vec![0u8; 4]);
            let mut guard = error.into_inner();
            guard.push(5);
            assert_eq!(*guard, vec![0, 0, 0, 0, 5]);
            guard.release();
        }
    }
    assert!(workspace.is_poisoned());

    match workspace.try_lock() {
        Err(TryLockError::Poisoned(error)) => {
            let guard = error.into_inner();
            assert_eq!(*guard, vec![0, 0, 0, 0, 5]);
            guard.release();
        }
        _ => panic!("a poisoned workspace did not say so"),
    }

    match workspace.into_inner() {
        Ok(_) => panic!("a poisoned workspace gave its value as sound"),
        Err(error) => assert_eq!(error.into_inner(), vec![0, 0, 0, 0, 5]),
    }
}

#[test]
fn mutex_reset_leaves_a_poisoned_value_alone() {
    let mut workspace = Temp::new(3u32, |n: &mut u32| *n = 0);
    workspace.lock().ok().unwrap().abandon();
    let mut other = workspace.lock().err().unwrap().into_inner();
    *other = 8;
    other.release();

    match workspace.reset() {
        Ok(()) => panic!("reset went ahead on a poisoned workspace"),
        Err(error) => {
            assert_eq!(**error.get_ref(), 8);
            error.into_inner().release();
        }
    }
    match workspace.try_reset() {
        Err(TryLockError::Poisoned(error)) => {
            assert_eq!(**error.get_ref(), 8);
            error.into_inner().release();
        }
        _ => panic!("try_reset did not report the poison"),
    }
    assert!(workspace.is_poisoned());
    assert_eq!(workspace.into_inner().err().unwrap().into_inner(), 8);
}

#[test]
fn mutex_clear_poison_makes_the_workspace_sound() {
    let mut workspace = Temp::new(3u32, |n: &mut u32| *n = 0);
    workspace.try_lock().ok().unwrap().abandon();
    assert!(workspace.is_poisoned());
    workspace.clear_poison();
    assert!(!workspace.is_poisoned());
    let mut guard = workspace.lock().ok().unwrap();
    assert_eq!(*guard, 0);
    *guard = 4;
    guard.release();
    assert!(workspace.reset().is_ok());
    assert!(workspace.try_reset().is_ok());
    assert_eq!(workspace.into_inner().unwrap(), 0);
}

#[test]
fn mutex_handle_reset_keeps_the_lock() {
    let mut workspace = Temp::new(5i8, |n: &mut i8| *n = -*n);
    let mut guard = workspace.lock().ok().unwrap();
    guard.reset();
    assert_eq!(*guard, -5);
    guard.reset();
    assert_eq!(*guard, 5);
    guard.release();
    assert_eq!(workspace.into_inner().unwrap(), -5);
}

#[test]
fn poison_error_hands_back_what_it_was_given() {
    let mut error = PoisonError::new(vec![1, 2, 3]);
    assert_eq!(*error.get_ref(), vec![1, 2, 3]);
    error.get_mut().push(4);
    assert_eq!(*error.get_ref(), vec![1, 2, 3, 4]);
    assert_eq!(error.into_inner(), vec![1, 2, 3, 4]);
}
