//! The decisions of the request handlers, one module per group of routes.
pub mod book_routes;
pub mod sheet_routes;
pub mod password_routes;
pub mod auth_routes;
pub mod admin_routes;
pub mod audit_routes;
pub mod io_routes;
pub mod spreadsheet;
