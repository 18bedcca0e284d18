//! Pooling, dispatch and blocking coordination for hosted script engines.
//!
//! A host process runs many instances of a single-threaded script
//! interpreter. This crate holds the rules of that hosting, each with a
//! contract that is proved:
//!
//! - [`factory`] keeps a pool of engines within its capacity, with the idle
//!   ones in a bounded queue ([`free_queue`]), and [`vm_build`] says how one
//!   engine is built from the bytecode that a [`loader`] walks through;
//! - [`block`] decides what a set-global, reply or throw task does with an
//!   interpreter that may or may not have paused yet;
//! - [`channel_map`] keeps the registry of request handlers and makes the
//!   channel that a request travels on;
//! - [`source_queues`] and [`pi_vm_impl`] give each source of calls one
//!   scheduler queue, and hold the entry points that a host offers.
//!
//! The interpreter and the scheduler themselves are not part of the crate.
//! Where work of theirs is needed, a function here says what to ask of them
//! next and takes their answer as an argument of the following call.

pub mod block;
pub mod channel_map;
pub mod factory;
pub mod free_queue;
pub mod loader;
pub mod name_table;
pub mod pi_vm_impl;
pub mod source_queues;
pub mod status;
pub mod task;
pub mod vm_build;
