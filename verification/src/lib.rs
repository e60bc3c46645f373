//! A Pomodoro timer engine: focus intervals that alternate with short and long
//! breaks, with pause and resume, driven by polling from a host loop.
//!
//! The engine keeps no running counter. It stores the instant at which the
//! current phase began, the instant at which the current pause began and the
//! total length of the pauses that have ended, and works every answer out from
//! these and the instant it is asked at. Instants are whole milliseconds since
//! the Unix epoch.
//!
//! [`MyApp`] is the engine. [`TimerModel`] is the mathematical value that its
//! contracts speak of, and `laws` holds what is proved of that model: the
//! invariants, how the time spent behaves under pause and resume, and the
//! order in which the phases follow each other.

mod clock;
pub mod display;
pub mod laws;
pub mod minutes;
pub mod model;
pub mod phase;
pub mod timer;

pub use display::Rgb;
pub use minutes::{Minutes, Progress};
pub use model::TimerModel;
pub use phase::{TimerError, TimerPhase, TimerState};
pub use timer::MyApp;
