//! Generates the host-side JavaScript wrapper class for functions exported
//! from a WebAssembly module, together with the raw signatures those
//! functions are exported under.

pub mod arguments;
pub mod error;
pub mod export;
pub mod generation;
pub mod indented_write;
pub mod naming;
pub mod parsing;
pub mod processing;
pub mod style;
pub mod syntax;
pub mod text;
pub mod translate;
pub mod types;
pub mod wire;

pub use indented_write::{IdentedWriter, WriteExt};
pub use arguments::KnownArgumentType;
pub use error::MacroError;
pub use generation::generate_javascript;
pub use generation::stats::FuncStats;
pub use parsing::{transform_mac_to_items, transform_macro_input_to_items};
pub use processing::{
    extract_func_info, get_argument_types, get_ret_type, JsFnInfo, TransformedRustIdent,
};
pub use style::{AccessStyle, Config};
pub use translate::translate_source;
pub use types::{SupportedArgumentType, SupportedCopyTy, SupportedRetType};
