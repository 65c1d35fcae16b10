//! Verified core of a C-callable bridge to a morphological analysis engine.
//!
//! The engine itself, the file system and the C ABI stay outside this crate.
//! What lives here is every decision the bridge takes: which inputs are
//! rejected, what is asked of the engine, how the engine's morphemes become
//! flat records with NUL-terminated text fields, and what the caller is told.
//! Each entry point takes plain values and says in its contract exactly what
//! it returns.
//!
//! A loading call starts with `sudachi_init` and goes on with `continue_init`
//! after each stage; a tokenization call starts with `sudachi_tokenize` and
//! ends with `complete_tokenize`. Whatever a call hands out is released by
//! `sudachi_free_token`, `sudachi_free_tokens` or `sudachi_free_tokenizer`.

pub mod array;
pub mod config;
pub mod handle;
pub mod json;
pub mod loader;
pub mod mode;
pub mod morpheme;
pub mod order;
pub mod text;
pub mod token;
pub mod tokenize;
pub mod version;

pub use crate::array::sudachi_free_tokens;
pub use crate::config::DictionaryConfig;
pub use crate::config::OovPlugin;
pub use crate::handle::sudachi_free_tokenizer;
pub use crate::handle::SudachiTokenizer;
pub use crate::loader::continue_init;
pub use crate::loader::sudachi_init;
pub use crate::loader::LoadEvent;
pub use crate::loader::LoadStep;
pub use crate::mode::Mode;
pub use crate::mode::SudachiTokenMode;
pub use crate::morpheme::Morpheme;
pub use crate::text::CText;
pub use crate::token::sudachi_free_token;
pub use crate::token::SudachiToken;
pub use crate::tokenize::complete_tokenize;
pub use crate::tokenize::sudachi_tokenize;
pub use crate::tokenize::AnalysisRequest;
pub use crate::version::sudachi_version;
