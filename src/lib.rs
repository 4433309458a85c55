//! Bybit top-of-book ("L1") order book updates: decoding of the wire payload,
//! the routing key of a stream, and the mapping into canonical market events.
pub mod book;
pub mod event;
pub mod json;
pub mod time;
