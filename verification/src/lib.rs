//! A small library around one interactive routine: print two fixed prompt
//! lines, read a single line of text from a line source, and echo the
//! captured text back verbatim. The read's outcome is passed in as a value,
//! so the routine's behaviour is a function of that outcome alone.

pub mod session;
pub mod tour;

pub use session::ReadOutcome;
pub use session::Transcript;
pub use session::prompts;
pub use session::echo_line;
pub use session::respond;
pub use session::run_session;
pub use tour::add;
pub use tour::tour_rust_fn;
