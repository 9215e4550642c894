//! Decoder for the NCM music container: framing, key derivation, the
//! substitution-table stream cipher and the rules around them, with the
//! behaviour of every function stated as a contract and proved.

pub mod assemble;
pub mod bytes;
pub mod cipher;
pub mod cli;
pub mod dump;
pub mod error;
pub mod filename;
pub mod frame;
pub mod keys;
pub mod metadata;
pub mod reader;
pub mod stream;

pub use cli::{Cli, TimeCompare};
pub use dump::{dump, DumpOutput};
pub use error::NcmError;
pub use frame::RawFrame;
pub use keys::Key;
pub use metadata::Metadata;
pub use reader::Ncmfile;
pub use stream::KeyBox;
