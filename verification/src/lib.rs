//! A small scheduling engine that fires tasks at points in time.
//!
//! The points in time come from a recurring [`period::Period`], a start
//! instant with a fixed duration between one due instant and the following,
//! or from a calendar schedule, a cron expression read against a time zone
//! ([`schedule::CronSchedule`]). Both are temporal sources
//! ([`temporal_iterator::TemporalIterator`]) and yield lazy sequences of due
//! instants. The scheduler ([`zeitschaltuhr::Zeitschaltuhr`]) pairs sources
//! with tasks ([`task::Task`]) and decides, for each pair on its own, how
//! long to wait and when to fire.
//!
//! Time is counted in elapsed seconds and nanoseconds since the Unix epoch
//! ([`time::Instant`], [`time::Span`]), so that the time between two due
//! instants of a period is the same whatever a wall clock shows. The present
//! is read from a [`clock::Clock`] that is handed in where one is needed.
//!
//! Nothing here sleeps or spawns: whoever drives a pair reads the clock,
//! asks the pair what to do, and waits as it is told.

pub mod clock;
pub mod period;
pub mod schedule;
pub mod task;
pub mod temporal_iterator;
pub mod time;
pub mod zeitschaltuhr;
