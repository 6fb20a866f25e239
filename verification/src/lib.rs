//! A key-value layer that hands out small integer handles for named stores
//! and forwards `get` / `set` / `delete` / `exists` to the backend behind
//! each handle.

pub mod cloud;
pub mod dispatch;
pub mod driver;
pub mod error;
pub mod host_component;
pub mod interface;
pub mod sqlite;
pub mod standalone;
pub mod store;
pub mod table;

pub use dispatch::{Config, ImplConfig, KeyValueDispatch};
pub use error::Error;
pub use host_component::{KeyValueComponent, KeyValueSqliteComponent};
pub use interface::KeyValue;
pub use store::Store;
pub use table::Table;
