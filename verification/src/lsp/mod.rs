pub mod protocol;
pub mod analysis;
pub mod server;

pub use analysis::{Analyzer, Document};
pub use server::LspServer;
