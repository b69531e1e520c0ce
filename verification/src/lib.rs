//! Process monitoring library: parsing of procfs data, process tracking and the
//! bookkeeping behind the interactive viewer.

pub mod collection;
pub mod ctrl;
pub mod decimal;
pub mod error;
pub mod input;
pub mod iteration;
pub mod labels;
pub mod layout;
pub mod metrics;
pub mod ordering;
pub mod probe;
pub mod process;
pub mod procfs;
pub mod text;
pub mod time;
pub mod triggers;
pub mod values;
