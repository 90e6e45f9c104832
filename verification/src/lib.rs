//! Verified core of a bank-code lookup service: reading bank records out of
//! spreadsheet rows, the import template, the service's configuration and
//! the answers it gives to each request.

pub mod cli;
pub mod config;
pub mod db;
pub mod models;
pub mod text;
pub mod excel;
pub mod reply;
pub mod sheet_writer;
pub mod console;
