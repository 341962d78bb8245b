//! Entity-management engine for study-group coordination: a bounded
//! connection pool, a read-through snapshot cache, an entity store over a
//! backing relational store, and a dispatcher that maps typed commands onto
//! store operations with uniform error semantics.

pub mod model;
pub mod pool;
pub mod cache;
pub mod backend;
pub mod store;
pub mod dispatch;
pub mod laws;
