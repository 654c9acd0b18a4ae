//! Records, patches, the statements that act on them, and the store model.
pub mod error;
pub mod field;
pub mod laws;
pub mod quote;
pub mod statement;
pub mod store;
pub mod todo;

pub use error::{handle_fetch_one_result, Error2, StoreError};
pub use field::{Column, Field, Value};
pub use quote::{Quote, QuoteMac, QuotePatch, QuoteStatus};
pub use statement::Statement;
pub use todo::{Todo, TodoMac, TodoPatch, TodoStatus};
