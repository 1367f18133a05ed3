pub mod model;
pub mod walk;
pub mod text;
pub mod os;
pub mod probe;
pub mod forest;
pub mod report;
pub mod cli;

pub use cli::{Cli, TdxCommand};
pub use os::check_os;
pub use walk::{run_all_checks, run_test};
