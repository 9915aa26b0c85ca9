//! A gateway that runs SQL statements sent as JSON: the mapping between wire
//! values and database values, the text of date and time cells, and the
//! answer owed to each request.

pub mod handler;
pub mod text;
pub mod value;
