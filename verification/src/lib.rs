//! Self-resetting scoped values.
//!
//! A workspace holds a value together with a reset function. Exclusive access
//! to the value is handed out as a write handle; releasing the handle runs the
//! reset function on the value before anyone else can look at it, so that
//! whatever was written through the handle never outlives it.
//!
//! Three disciplines are offered, each in a module of its own and none built
//! on another:
//!
//! | Module   | Access rules                                              |
//! |----------|-----------------------------------------------------------|
//! | `unsync` | shared views or one write handle, checked when asked for  |
//! | `mutex`  | one holder at a time, with a poison flag                  |
//! | `rwlock` | shared readers or one writer, with a poison flag          |
//!
//! # How access is tracked
//!
//! A workspace owns its value and keeps its borrow state beside it. What
//! changes either of them takes the workspace by `&mut`, and a write handle
//! borrows the workspace for as long as it lives. Every contract can so speak
//! of the value before and after, and a second holder beside a living handle
//! is ruled out before the program runs. What is left to find out when access
//! is asked for is whether an earlier handle was ever given back.
//!
//! # Giving a handle back
//!
//! A handle is given back by `release`, which resets the value and frees the
//! workspace. A handle that is let go of in any other way leaves the workspace
//! claimed: requests that do not wait are refused from then on, and nobody
//! sees what that handle wrote.
//!
//! ```
//! use tempref::unsync::Temp;
//!
//! let mut workspace = Temp::new(vec![0; 128], |d: &mut Vec<i32>| d.fill(0));
//! let mut guard = workspace.borrow_mut();
//! guard.fill(1);
//! assert_eq!(*guard, vec![1; 128]);
//! guard.release();
//! assert_eq!(*workspace.borrow(), vec![0; 128]);
//! ```

pub mod mutex;
pub mod poison;
pub mod reset;
pub mod rwlock;
pub mod unsync;
