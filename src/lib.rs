//! Exporter of the active check-ins of a travel-logging service as labeled
//! gauges: the verified core that turns a feed snapshot into gauge samples.

pub mod aggregate;
pub mod cache;
pub mod client;
pub mod feed;
pub mod labels;
pub mod metrics;
pub mod scrape;
