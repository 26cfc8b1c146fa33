pub mod dao;
pub mod entity;
pub mod laws;
pub mod outcome;
pub mod page;
pub mod rdbc;
pub mod service;
