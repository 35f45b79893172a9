//! A readiness-based I/O event notifier built on epoll (through mio), with
//! verified event translation, interest mapping and timeout arithmetic.
pub mod event;
pub mod timeout;
mod native;
pub mod poller;

pub use event::{Event, InterestSet, NativeEvent, NOTIFY_KEY};
pub use poller::{Events, PollError, Poller};
pub use timeout::{millis_rounded_up, native_timeout, timer_setting, Timeout, TimerSetting};
