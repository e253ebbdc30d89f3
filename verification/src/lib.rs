//! Crawl execution and reconciliation pipeline for rental listing pages.
//!
//! The library covers the computational core of a periodic listing crawler:
//! locale-aware number parsing, extraction of typed records from parsed
//! documents, record equivalence and round-to-round deduplication, geocoding
//! response handling, and the payload handed to the downstream transport.
//! Network and file I/O live outside the library; callers hand in plain
//! values (bytes, strings) and receive plain values back.

pub mod city;
pub mod configuration;
pub mod crawlers;
pub mod dom;
pub mod error;
pub mod executor;
pub mod flat;
pub mod geocode;
pub mod numbers;
pub mod payload;
pub mod reconcile;
pub mod text;
