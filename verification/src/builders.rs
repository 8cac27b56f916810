//! The builders, in one place.

pub use crate::application::ApplicationBuilder;
pub use crate::flags::FlagBuilder;
pub use crate::parameters::ParameterBuilder;
pub use crate::subcommand::SubCommandBuilder;
