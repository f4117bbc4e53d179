//! An in-process actor runtime kernel: paths, cells with their mailboxes and
//! lifecycle, the ready queue and worker accounting, one-shot reply sinks, future
//! cells and the name registry, tied together by `runtime::ActorSystem`.
//!
//! The kernel decides; whoever runs it (worker threads, or a plain loop) performs
//! what each step returns and reports back how the application's behaviors ended.

pub mod cell;
pub mod future;
pub mod path;
pub mod reference;
pub mod runtime;
pub mod scheduler;
pub mod sink;
pub mod table;
