//! Symbol-server addressing: identifiers of symbol files, server
//! specifications, cache layout and the retrieval decisions.

pub mod ident;
pub mod layout;
pub mod retrieve;
pub mod server;
pub mod text;

pub use ident::{ExeInfo, PdbInfo, SymFileInfo};
pub use layout::{download_url, relative_path, two_tier_prefix};
pub use retrieve::{Action, DownloadError, DownloadStatus, Event, FetchReply, Phase, Retrieval};
pub use server::{ConfigError, SymSrvList, SymSrvSpec};
