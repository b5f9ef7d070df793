//! Coffee market indicators: extraction of a typed record from the
//! published indicator list, and the freshness-aware cache-aside decisions
//! that serve it.
pub mod date;
pub mod text;
pub mod money;
pub mod indicators;
pub mod extract;
pub mod document;
pub mod retrieval;
pub mod clock;
pub mod price;
pub mod price_retrieval;
