//! State threading for parameterized syntax construction.
//!
//! A parser that recognizes grammar productions can serve several backends at
//! once if what is built for a production is left to the backend. A backend
//! may want to keep bookkeeping of its own while the parse goes on. This crate
//! holds the contract through which such a state is threaded: a state is made
//! once from the parse configuration and the source text, and each recognized
//! production folds the current state with that production's children into
//! the next one.

pub mod parser_env;
pub mod smart_constructors;
pub mod source_text;
pub mod syntax_smart_constructors;
pub mod threading;

pub use parser_env::ParserEnv;
pub use smart_constructors::NoState;
pub use source_text::SourceText;
pub use syntax_smart_constructors::StateType;
