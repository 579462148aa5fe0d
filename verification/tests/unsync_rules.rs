use std::cell::Cell;
use tempref::unsync::{BorrowError, BorrowMutError, Temp};

#[test]
fn unsync_release_resets_whatever_was_written() {
    let mut workspace = Temp::new(vec![7u8, 7, 7], |v: &mut Vec<u8>| v.clear());
    let mut guard = workspace.borrow_mut();
    guard.push(1);
    guard.push(2);
    guard[0] = 9;
    assert_eq!(*guard, vec![9, 7, 7, 1, 2]);
    guard.release();
    assert_eq!(*workspace.borrow(), Vec::<u8>::new());
    assert_eq!(workspace.try_borrow().ok(), Some(&Vec::<u8>::new()));
}

#[test]
fn unsync_release_runs_the_reset_function_once() {
    let runs = Cell::new(0u32);
    let mut workspace = Temp::new(5i64, |n: &mut i64| {
        runs.set(runs.get() + 1);
        *n = -1;
    });
    assert_eq!(runs.get(), 0);
    let mut guard = workspace.borrow_mut();
    *guard = 40;
    assert_eq!(runs.get(), 0);
    guard.release();
    assert_eq!(runs.get(), 1);
    assert_eq!(*workspace.borrow(), -1);
    let mut guard = workspace.try_borrow_mut().ok().unwrap();
    guard.reset();
    assert_eq!(runs.get(), 2);
    *guard = 3;
    guard.release();
    assert_eq!(runs.get(), 3);
    assert_eq!(workspace.into_inner(), -1);
}

#[test]
fn unsync_new_keeps_the_value_as_given() {
    let workspace = Temp::new(String::from("raw"), |s: &mut String| s.clear());
    assert_eq!(*workspace.borrow(), "raw");
    assert_eq!(workspace.into_inner(), "raw");
}

#[test]
fn unsync_new_with_resets_the_value_first() {
    let workspace = Temp::new_with(String::from("raw"), |s: &mut String| s.clear());
    assert_eq!(*workspace.borrow(), "");
}

#[test]
fn unsync_new_default_starts_from_the_default() {
    let workspace: Temp<u16, _> = Temp::new_default(|n: &mut u16| *n = 12);
    assert_eq!(*workspace.borrow(), 0);
    let workspace: Temp<u16, _> = Temp::new_default_with(|n: &mut u16| *n = 12);
    assert_eq!(*workspace.borrow(), 12);
}

#[test]
fn unsync_shared_views_coexist() {
    let workspace = Temp::new([3u8; 4], |a: &mut [u8; 4]| a.fill(0));
    let first = workspace.borrow();
    let second = workspace.try_borrow().unwrap();
    let third = workspace.borrow();
    assert_eq!(*first, [3u8; 4]);
    assert_eq!(*second, [3u8; 4]);
    assert_eq!(first, third);
}

#[test]
fn unsync_unreleased_handle_keeps_the_workspace_claimed() {
    let mut workspace = Temp::new(vec![1, 2, 3], |v: &mut Vec<i32>| v.clear());
    {
        let mut guard = workspace.borrow_mut();
        guard.push(4);
    }
    assert_eq!(workspace.try_borrow(), Err(BorrowError));
    assert!(matches!(workspace.try_borrow_mut(), Err(BorrowMutError)));
    assert_eq!(workspace.try_reset(), Err(BorrowMutError));
    assert_eq!(workspace.try_borrow(), Err(BorrowError));
    assert_eq!(workspace.into_inner(), vec![1, 2, 3, 4]);
}

#[test]
fn unsync_try_borrow_mut_succeeds_on_a_free_workspace() {
    let mut workspace = Temp::new(10u32, |n: &mut u32| *n = 10);
    let mut guard = workspace.try_borrow_mut().ok().unwrap();
    *guard += 5;
    assert_eq!(*guard, 15);
    guard.release();
    assert_eq!(workspace.try_borrow(), Ok(&10));
    assert!(workspace.try_borrow_mut().is_ok());
}

#[test]
fn unsync_replace_does_not_reset() {
    let mut workspace = Temp::new(vec![0; 4], |v: &mut Vec<i32>| v.fill(0));
    let old = workspace.replace(vec![5, 6]);
    assert_eq!(old, vec![0; 4]);
    assert_eq!(*workspace.borrow(), vec![5, 6]);
    let old = workspace.replace(vec![8]);
    assert_eq!(old, vec![5, 6]);
    assert_eq!(workspace.into_inner(), vec![8]);
}

#[test]
fn unsync_replace_with_computes_from_the_present_value() {
    let mut workspace = Temp::new(vec![1, 2, 3], |v: &mut Vec<i32>| v.clear());
    let old = workspace.replace_with(|v: &mut Vec<i32>| v.iter().map(|n| n * 10).collect());
    assert_eq!(old, vec![1, 2, 3]);
    assert_eq!(*workspace.borrow(), vec![10, 20, 30]);
    let old = workspace.replace_with(|v: &mut Vec<i32>| {
        v.push(0);
        vec![v.len() as i32]
    });
    assert_eq!(old, vec![10, 20, 30, 0]);
    assert_eq!(*workspace.borrow(), vec![4]);
}

#[test]
fn unsync_swap_exchanges_without_reset() {
    let mut workspace = Temp::new(1u8, |n: &mut u8| *n = 0);
    let mut other = 200u8;
    workspace.swap(&mut other);
    assert_eq!(other, 1);
    assert_eq!(*workspace.borrow(), 200);
}

#[test]
fn unsync_reset_twice_gives_what_once_gives() {
    let mut workspace = Temp::new(vec![4, 5, 6], |v: &mut Vec<i32>| v.fill(0));
    workspace.reset();
    let once = workspace.borrow().clone();
    workspace.reset();
    let twice = workspace.borrow().clone();
    assert_eq!(once, vec![0, 0, 0]);
    assert_eq!(twice, once);
    assert_eq!(workspace.try_reset(), Ok(()));
    assert_eq!(*workspace.borrow(), once);
}

#[test]
fn unsync_reset_applies_the_function_to_the_present_value() {
    let mut workspace = Temp::new(3u32, |n: &mut u32| *n = *n * 2 + 1);
    workspace.reset();
    assert_eq!(*workspace.borrow(), 7);
    workspace.reset();
    assert_eq!(*workspace.borrow(), 15);
    let mut guard = workspace.borrow_mut();
    *guard = 100;
    guard.release();
    assert_eq!(*workspace.borrow(), 201);
}

#[test]
fn unsync_scratch_buffer_scenario() {
    let mut workspace = Temp::new(vec![1u8; 128], |v: &mut Vec<u8>| v.fill(0));
    let mut guard = workspace.borrow_mut();
    guard.fill(2);
    assert_eq!(*guard, vec![2u8; 128]);
    guard.release();
    assert_eq!(*workspace.borrow(), vec![0u8; 128]);
    let old = workspace.replace(vec![1u8; 16]);
    assert_eq!(old, vec![0u8; 128]);
    assert_eq!(*workspace.borrow(), vec![1u8; 16]);
}

#[test]
fn run_applies_the_function_to_the_value_in_place() {
    let mut halve = |n: &mut u32| *n /= 2;
    let mut value = 36u32;
    tempref::reset::run(&mut halve, &mut value);
    assert_eq!(value, 18);
    tempref::reset::run(&mut halve, &mut value);
    assert_eq!(value, 9);
}
