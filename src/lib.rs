//! Highlight capture for game telemetry: datagrams are classified into
//! commands, capture commands make the recording backend save its replay
//! buffer after a cool-down, and saved clips are surfaced by name.

pub mod mugi_schema;
pub mod obs;
pub mod orchestrator;
pub mod udp;
pub mod vlc_manager;

pub use mugi_schema::{parse_cmd, DecodeError, MugiCmd};
pub use obs::Obs;
pub use orchestrator::AppState;
pub use vlc_manager::VlcManager;
