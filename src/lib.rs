//! Core of a profile-scraping service: proxy rotation, scrape orchestration,
//! schema normalisation, caching and image transformation.

pub mod text;
pub mod models;
pub mod json;
pub mod normalize;
pub mod proxy;
pub mod config;
pub mod scraper;
pub mod images;
pub mod transform;
pub mod cache;
pub mod api;
