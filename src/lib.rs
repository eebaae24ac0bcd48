//! A fixed-size worker pool's decision logic: the shared job queue, the
//! worker life cycle, and the dispatcher's construction and shutdown plan.
pub mod pool;
pub mod queue;
pub mod worker;
