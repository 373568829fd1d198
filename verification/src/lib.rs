//! Verified core of an ADBC driver for Arrow Flight SQL.

pub mod builders;
pub mod columns;
pub mod connection;
pub mod database;
pub mod double;
pub mod driver;
pub mod error;
pub mod flight;
pub mod laws;
pub mod metadata;
pub mod options;
pub mod statement;
pub mod stream;
pub mod text;
pub mod timeouts;
pub mod transport;

pub use connection::FlightSqlConnection;
pub use database::FlightSqlDatabase;
pub use driver::FlightSqlDriver;
pub use statement::FlightSqlStatement;
pub use stream::FlightSqlRecordBatchReader;
