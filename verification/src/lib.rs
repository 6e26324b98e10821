//! A single-operator invoicing ledger: clients, invoices and their line items
//! in a SQLite store, the resolution of commands, and the reassembly of joined
//! rows into invoices.

pub mod error;
pub mod models;
pub mod text;
pub mod cli;
pub mod aggregate;
pub mod cell;
pub mod store;
pub mod request;
pub mod calendar;
pub mod database;
pub mod commands;
pub mod render;
