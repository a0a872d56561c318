//! A replication engine that keeps an authoritative primary store and an
//! optional backup mirror consistent under write operations, tolerating a
//! backup that is unreachable for arbitrary periods.
//!
//! The engine decides and never does: it touches no store itself. A caller
//! submits an operation with [`engine::SyncEngine::execute_operation`] or
//! starts a flush with [`engine::SyncEngine::flush_queue`] and gets a
//! [`protocol::Command`] back. It carries the command out, reports the
//! outcome with [`engine::SyncEngine::resume`], and goes on with the command
//! that this returns, until the command is [`protocol::Command::Done`].
//!
//! * [`operation`]: the operations that can be replicated.
//! * [`applier`]: the collaborator request that carries an operation out.
//! * [`oplog`]: the operation log and the life of a record.
//! * [`protocol`]: commands, outcomes, errors and phases.
//! * [`engine`]: the engine and its transitions.
//! * [`laws`]: what holds over whole submissions, flushes and runs.
//! * [`status`]: reports on the queue and on replication.
//! * [`config`], [`file_ops`], [`models`]: records of the services around
//!   the engine.

pub mod applier;
pub mod config;
pub mod engine;
pub mod file_ops;
pub mod laws;
pub mod models;
pub mod operation;
pub mod oplog;
pub mod protocol;
mod sources;
pub mod status;
