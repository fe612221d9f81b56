//! What each subcommand decides and computes.

pub mod cp;
pub mod edit;
pub mod generate;
pub mod list;
pub mod new;
pub mod rm;

pub use cp::cp;
pub use edit::edit;
pub use generate::generate;
pub use list::list;
pub use new::new;
pub use rm::rm;
