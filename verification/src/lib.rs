use vstd::prelude::*;

pub mod ambient;
pub mod text;
pub mod sql;
pub mod format;
pub mod utils;
pub mod config;
pub mod models;
pub mod validation;
pub mod requests;
pub mod catalog;
pub mod auth;
pub mod security;
pub mod scheduler;
pub mod health;
pub mod ingestion_config;
pub mod monitoring;
pub mod analytics;
pub mod processors;
pub mod admin;
pub mod nlp;
pub mod queries;
pub mod realtime;
pub mod lake_metrics;
pub mod cli;
pub mod file_source;
pub mod system_stats;
pub mod files;
pub mod time_series;
pub mod complex_analysis;
pub mod sources;
pub mod ingestion_service;
pub mod db_connectors;

verus! {
}
