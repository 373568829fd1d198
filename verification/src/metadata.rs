//! What a server and this driver say about themselves: information codes, the hierarchy of
//! database objects, table types and table schemas.

pub mod collect;
pub mod info;
pub mod objects;
pub mod room;
pub mod walk;
