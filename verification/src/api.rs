//! Messages exchanged with the database, as the client builds and reads them.

pub mod v1;
