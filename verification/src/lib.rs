//! Accounts, session tokens and recipes of a small recipe-sharing service.

pub mod cookies;
pub mod credentials;
pub mod database;
pub mod feedback;
pub mod keyed_vec;
pub mod laws;
pub mod model;
pub mod service;
pub mod token;
pub mod users;
