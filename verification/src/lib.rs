//! A bridge between a relational database's row-insert hook and sandboxed
//! guest components.
//!
//! The library holds the decisions of the bridge: how a host row becomes a
//! parameter row, which component a table is routed to, how a result row is
//! merged back, and in which order the one-time bootstrap proceeds. The
//! work that only the outside world can do (fetching a bundle, running a
//! component, touching the host's tuple) is performed by the embedding
//! program, which hands each outcome back to the library as a plain value.
//!
//! - [`value`]: the neutral cells and rows that cross the boundary.
//! - [`host`]: the host's row, and its conversion into a parameter row.
//! - [`merge`]: writing a result row back into the host's row.
//! - [`trigger`]: the table-to-component router and the dispatch decision.
//! - [`resolver`]: the place and the URL of the locked application.
//! - [`run`]: the application and the steps of its bootstrap.
//! - [`cell`]: the holder that is filled by the first row event.
//! - [`adapter`]: a row event from the host's hook and back.
//! - [`sample_app`]: two guest components to try the bridge with.
//! - [`text`]: comparison of string slices.

pub mod adapter;
pub mod cell;
pub mod host;
pub mod merge;
pub mod resolver;
pub mod run;
pub mod sample_app;
pub mod text;
pub mod trigger;
pub mod value;
