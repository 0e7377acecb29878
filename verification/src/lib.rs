pub mod text;
pub mod parse;
pub mod query;
pub mod jsonapi;
pub mod middleware;
pub mod presenter;
pub mod string_map;
pub mod search_filter;
pub mod audit;
pub mod cookie;
pub mod rate_limit;
pub mod events;
pub mod listeners;
pub mod media;
pub mod validation;
pub mod requests;
pub mod fixtures;
