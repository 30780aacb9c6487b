//! Native backend of the Wordma desktop editor: the command handlers that the
//! front-end invokes and the schema migrations of the local database.

pub mod greeting;
pub mod mdx;
pub mod schema;
pub mod dir_check;
