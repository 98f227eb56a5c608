//! Management of interactive child-process sessions.
//!
//! The crate stores immutable session configurations under freshly issued
//! identifiers, decides when a session process may be launched, builds the
//! command line for the external agent executable, transcodes the raw
//! terminal output of a running session into styled text, and constructs the
//! events that a host hands on to its caller.  Spawning the child and driving
//! its I/O loops is left to the host; every decision the host acts on is
//! made here, under contract.

pub mod command;
pub mod config;
pub mod errors;
pub mod events;
pub mod manager;
pub mod relay;
pub mod strings;
pub mod table;

pub use command::{build_session_args, format_temperature, LaunchPlan};
pub use config::SessionConfig;
pub use errors::{SessionError, StreamKind};
pub use events::{output_line_event, termination_events, OutputEvent, SessionEvent};
pub use manager::{get_available_sessions, SessionManager, SessionProcess, StartOutcome};
pub use relay::ansi_to_html;
