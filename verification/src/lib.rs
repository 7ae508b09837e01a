//! Multi-provider resolution for art/media platforms: each provider decides
//! whether a URL belongs to it and maps the platform's API responses into
//! normalized post records; an aggregation policy turns ranked perceptual-hash
//! matches into a single deduplicated notification.

pub mod handlers;
pub mod json;
pub mod sites;
pub mod strutil;
