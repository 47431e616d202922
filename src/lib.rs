//! Error taxonomy, pagination and the generic data-access engine of a small
//! CRUD backend, with the user service's decisions, token rules and password
//! hashing around them.
pub mod auth;
pub mod config;
pub mod crypto;
pub mod engine;
pub mod error;
pub mod kind;
pub mod page;
pub mod params;
pub mod record;
pub mod result;
pub mod service;
pub mod text;
pub mod token;

pub use error::{AppError, ContextText, IntoAppError};
pub use kind::AppErrorKind;
pub use page::{Page, PageError};
pub use params::{
    default_page_num, default_page_size, Attr, CreateParam, FilterParam, OrderParam,
    PaginateParam, UpdateParam,
};
pub use result::{AppResult, ContextExt, IntoAppResult, WrapToAppResult};
