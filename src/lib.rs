//! Lifecycle engine for locally hosted language models: the model catalog,
//! the on-disk layout, the install pipeline, the supervisor of the backing
//! inference service and the streaming generation loop.
//!
//! Every part that decides is a verified state machine over plain values; the
//! host performs the I/O that each machine asks for and feeds the outcome back.

pub mod models;
pub mod layout;
pub mod install;
pub mod supervisor;
pub mod generation;
pub mod specs;
