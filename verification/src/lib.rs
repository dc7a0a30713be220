//! A minimal image-sharing core: a server-side pipeline that authenticates an
//! upload, sniffs the payload's binary signature, stores the bytes under a
//! freshly generated key and answers with a public URL, plus the retrieval
//! pipeline and the client-side watch/upload decision logic.

pub mod client;
pub mod filetype;
pub mod keys;
pub mod server;
pub mod store;

pub use filetype::FileType;
