pub mod model;
pub mod text;
pub mod num;
pub mod util;
pub mod config;
pub mod service;
pub mod repo;
pub mod handler;
pub mod middleware;
pub mod db;
