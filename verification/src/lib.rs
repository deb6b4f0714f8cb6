//! A bridge between a home-automation controller and Matter: the entities of the
//! controller are exposed as devices of virtual Matter nodes, the bridges.
//!
//! This crate holds the rules of that bridge as functions on plain values, each with a
//! contract that Verus proves:
//!
//! - [`filter`] and [`device_map`] decide which entities a bridge exposes and as what;
//!   [`devices`] turns them into the numbered device list of a bridge.
//! - [`upstream`] joins what the controller serves into entity descriptors.
//! - [`storage`] is the snapshot of the store and [`ops`] the operation queue on it.
//! - [`dispatcher`] decides, step by step, what an operation does.
//! - [`runtime`], [`matter`], [`network`] and [`pairing`] hold the decisions of the
//!   Matter node of a bridge.
//! - [`api`] holds the rules behind the REST interface, [`settings`] the reading of
//!   settings.
//!
//! Reading and writing files, talking HTTP and running the Matter stack are left to
//! the program around the library.

pub mod api;
pub mod device_map;
pub mod devices;
pub mod dispatcher;
pub mod filter;
pub mod ids;
pub mod json;
pub mod matter;
pub mod models;
pub mod network;
pub mod ops;
pub mod pairing;
pub mod runtime;
pub mod seqs;
pub mod settings;
pub mod storage;
pub mod text;
pub mod upstream;
