//! Catalog-and-deduplication core of an assertion and guidance telemetry engine.
pub mod store;
pub mod guidance;
pub mod tracker;
pub mod assertion;
pub mod gate;
pub mod random;
pub mod lifecycle;
