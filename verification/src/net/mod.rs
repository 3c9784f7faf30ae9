//! The bookkeeping of readiness events: which task to wake for which event source.
pub mod io_service;
pub mod socket;
