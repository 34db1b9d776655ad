//! The execution engine of one worker of an actor runtime.
//!
//! An actor is a computation with an inbox. It runs one step at a time,
//! suspends when it can make no progress, and is run again once a message,
//! a deadline or an outside event wakes it. A worker holds many of them:
//!
//! * [`scheduler`] keeps the processes and hands out the ready one with the
//!   least runtime, weighted by priority ([`priority`], [`process`],
//!   [`heap`]);
//! * [`actor_process`] and [`initiator`] are the processes themselves, made
//!   of what [`actor`] and [`supervisor`] ask the user to write;
//! * [`supervisor`] says what becomes of an actor that failed;
//! * [`inbox`] and [`actor_ref`] carry the messages, [`waker`] the wakes;
//! * [`timers`] and [`timer`] keep the deadlines;
//! * [`system`] is the worker: it decides what one turn of its loop does.
//!
//! Waiting for the operating system is not done here: the caller polls and
//! hands in the events it got.

pub mod actor;
pub mod actor_process;
pub mod actor_ref;
pub mod error;
pub mod heap;
pub mod inbox;
pub mod initiator;
pub mod options;
pub mod pid;
pub mod priority;
pub mod process;
pub mod scheduler;
pub mod supervisor;
pub mod system;
pub mod system_ref;
pub mod text;
pub mod time;
pub mod timer;
pub mod timers;
pub mod trace;
pub mod waker;
