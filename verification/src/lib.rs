pub mod args;
pub mod filter;
pub mod log;
pub mod raw;
pub mod text;

pub use filter::KyokuFilter;
pub use raw::{ActionItem, KyokuMeta, RawKyoku, RawLog, RawValue, ResultItem, Rule, Tile};
