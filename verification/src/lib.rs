//! A tree-walking evaluator for a small expression-oriented scripting
//! language. The syntax tree lives in [`ast`]; the runtime walks it,
//! threading control-flow signals ([`runtime::EvRes`]) through nested
//! constructs until a loop or a function-invocation boundary consumes them.

pub mod ast;
pub mod error;
pub mod function;
pub mod module;
pub mod runtime;
pub mod semantics;
pub mod table;
pub mod value;

pub use error::Error;
pub use function::Function;
pub use function::NativeHost;
pub use module::Module;
pub use runtime::Runtime;
pub use value::Value;
