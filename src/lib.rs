//! A custodial swap pool for the items of one collection: holders deposit an
//! item, the pool's creator withdraws one, and anyone may swap an item of the
//! collection for one the pool holds, for a flat fee.
//!
//! `pool` holds the record and the accounts each operation is handed, `ops`
//! the operations, `derive` the program-derived addresses they re-derive, and
//! `laws` what holds across operations.
pub mod derive;
pub mod key;
pub mod laws;
pub mod ops;
pub mod pool;
