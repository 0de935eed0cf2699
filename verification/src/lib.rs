//! Verified core of an out-of-process end-to-end test harness for Bevy games:
//! launch options, the harness's decisions while it waits on a child game,
//! the JSON it sends and reads over the Bevy Remote Protocol, selector
//! resolution, artifact naming and the bounded capture of child output.

pub mod artifacts;
pub mod capture;
pub mod child;
pub mod client;
pub mod error;
pub mod game;
pub mod id;
pub mod input;
pub mod inspect;
pub mod json;
pub mod options;
pub mod runtime;
pub mod selector;
pub mod text;
pub mod time;
pub mod wait;

pub use capture::{CapturedOutput, MAX_CAPTURED_OUTPUT_BYTES};
pub use error::{E2eResult, Error, ErrorView, ExitReport};
pub use id::E2eId;
pub use json::{Json, Number};
pub use options::E2eLaunchOptions;
