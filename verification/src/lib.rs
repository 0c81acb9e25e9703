//! A small ORM toolkit: the `SetOption` model type and the logic behind the
//! `Table` derive. The derive reads a struct's `#[tiny_orm(...)]` arguments
//! and fields, chooses the operations to generate, and writes the source of
//! the CRUD methods (`get_by_id`, `list_all`, `create`, `update`, `delete`),
//! each of which builds its SQL with `sqlx::QueryBuilder`.

pub mod attr;
pub mod database;
pub mod derive;
pub mod error;
pub mod item;
pub mod query_operators;
pub mod quotes;
pub mod set_option;
pub mod text;
pub mod types;
