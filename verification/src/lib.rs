//! Scraping scheduler for a self-hosted feed aggregator: the registry of
//! running site workers, the per-site polling state machine and the rules
//! that turn a fetched page into article records.

pub mod dates;
pub mod digest;
pub mod dom;
pub mod dto;
pub mod errors;
pub mod extract;
pub mod feed;
pub mod forms;
pub mod links;
pub mod listing;
pub mod models;
pub mod preferences;
pub mod registry;
pub mod session;
pub mod settings;
pub mod site;
pub mod sites;
pub mod tags;
pub mod template_utils;
pub mod text;
pub mod utils;
pub mod worker;
