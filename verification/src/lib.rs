//! An index from the blocks of a host chain to the blocks and transactions
//! of the Ethereum-compatible chain embedded in it, and the engine that
//! builds the index as the host chain grows and forks.
//!
//! The engine (`engine`) walks the host chain backward from its leaves, one
//! header for each step. It keeps a frontier of the tips it has yet to walk
//! down, so that a run can stop anywhere and be taken up again. It performs
//! no reads or writes itself: it asks for them, and whoever drives it
//! answers. What it derives from a header stands in `mapping`, `genesis`
//! and `header`, on top of the log search of `consensus`.
//!
//! `backend` holds the collaborators in memory and drives the engine on
//! them. `model` says what a step and a run come to, and `refinement` ties
//! the engine to it. `laws`, `coverage` and `convergence` prove what holds
//! of every run. `precompiles` is the table of the precompiled contracts.

pub mod backend;
pub mod consensus;
pub mod convergence;
pub mod coverage;
pub mod engine;
pub mod genesis;
pub mod header;
pub mod laws;
pub mod mapping;
pub mod model;
pub mod precompiles;
pub mod primitives;
pub mod refinement;
