//! Turns JSON point documents into point-insertion requests for a vector
//! store, and decides, record by record, how an upsert session goes on.

pub mod json;
pub mod vector;
pub mod point;
pub mod dispatch;
pub mod lemmas;
