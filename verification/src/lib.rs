//! In-kernel inter-process communication core: a bounded byte pipe with
//! blocking-aware open/read/write semantics, and a level-triggered readiness
//! multiplexer over watched resources.
//!
//! Everything here is sequential, verified logic. Blocking is represented
//! explicitly: a step that cannot make progress returns a suspend outcome and
//! the surrounding scheduler (outside this crate) parks the task on the named
//! wait queue, wakes it on the peer's signal, and retries the step.

pub mod errno;
pub mod ring;
pub mod fifo;
pub mod epoll;
pub mod vfs;
pub mod console;
