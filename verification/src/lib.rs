//! An in-memory store of floor-plan projects and the operations a front end
//! needs on it: create a project, read it back, replace it wholesale.
//!
//! Every operation is stated over a mathematical model: a project is viewed as
//! a record of character sequences and wall records, the store as a map from
//! identifier to such a record.

pub mod ident;
pub mod laws;
pub mod model;
pub mod service;
pub mod store;
