//! A terminal host monitor: a snapshot engine that normalises raw OS counters,
//! a renderer that lays the snapshot out as styled text, and the decisions of
//! the refresh loop.
pub mod control;
pub mod metrics;
pub mod naming;
pub mod order;
pub mod percent;
pub mod render;
pub mod system_base;
pub mod text;
pub mod units;
