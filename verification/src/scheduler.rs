//! The trigger scheduler: calendar resolution, generation accounting and
//! trigger composition.
//!
//! The scheduler's runtime side (task spawning, channels, sleeping) lives in
//! the surrounding application; everything that decides *what* happens — which
//! date a partial date resolves to, which generation a fire emits, when a
//! finite counter is exhausted — is verified here.

pub mod calendar;
pub mod clock;
pub mod counter;
pub mod datetime;
pub mod day;
pub mod month;
pub mod partial_date;
pub mod trigger;

pub use calendar::Date;
pub use calendar::NaiveTime;
pub use clock::Moment;
pub use counter::Counter;
pub use counter::CounterTrigger;
pub use datetime::DatetimeTrigger;
pub use day::Day;
pub use month::Month;
pub use partial_date::PartialDate;
pub use trigger::Trigger;
