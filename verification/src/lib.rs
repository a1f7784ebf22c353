pub mod cli;
pub mod constants;
pub mod dependencies;
pub mod engines;
pub mod error;
pub mod events;
pub mod preview;
pub mod recency;
pub mod render_cache;
pub mod result;
pub mod session;
pub mod sorter;
pub mod strings;
pub mod ui;
pub mod validation;

pub use cli::Cli;
pub use cli::SearchMode;
pub use dependencies::Dependencies;
pub use error::SearchError;
pub use engines::SearchEngine;
pub use result::SearchResult;
pub use ui::ResultsAreaInfo;
