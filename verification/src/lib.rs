//! A declarative command-line parser and dispatcher.
//!
//! An application describes a tree of flags, parameters and nested
//! subcommands, each node optionally bound to a callback.
//! [`Application::execute`] walks a sequence of argument tokens through that
//! tree, records what the tokens say in the stores held by the declarations,
//! and invokes the callback of the node at which the tokens end.
//!
//! The behaviour of the walk is defined once, mathematically, by
//! [`model::dispatch`]; every executable function is proved against it, and
//! [`laws`] states what follows from it.

pub mod application;
pub mod arguments;
pub mod builders;
pub mod error;
pub mod flags;
pub mod help;
pub mod laws;
pub mod model;
pub mod parameters;
pub mod subcommand;
pub mod text;

pub use application::Application;
pub use error::{CommandLineError, Outcome};
pub use flags::{Flag, FlagValue};
pub use parameters::{Parameter, ParameterValue};
pub use subcommand::{SubCommand, TokenAction};
