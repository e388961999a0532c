//! Source health and self-heal diagnostic records.
pub mod heal;
pub mod record;

pub use heal::SourceHealRecord;
pub use record::SourceHealthRecord;
