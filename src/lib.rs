//! Plans and drives a probe of a GPU API's timestamp and pipeline-statistics
//! queries: which operations are recorded for a set of flags, the usage rules
//! those operations obey, and the decisions of a run that performs them.

pub mod plan;
pub mod session;
pub mod trace;
pub mod usage;
