//! Verified core of a small CRUD service for city records: the decoding of a
//! city from a key/value document, the field rendering used for SQL
//! parameters, the query builder and its statements, and the replies the
//! HTTP handlers give.

pub mod numeric;
pub mod text;
pub mod city;
pub mod queries;
pub mod handlers;
pub mod config;

pub use city::{City, CityError, CityVisitor, GetAllFields};
pub use config::get_key_cert;
pub use handlers::QueryParams;
pub use queries::{get_one, post_put_or_delete_one, QueryBuilder, QueryBuilderError};
