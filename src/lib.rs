//! Normalisation of raw air-quality rows into typed records, and the
//! filtered look-up over stored records.

pub mod calendar;
pub mod decimal;
pub mod ingest;
pub mod query;
pub mod record;
pub mod render;
