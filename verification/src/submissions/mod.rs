pub mod actions;
pub mod history;
pub mod model;
pub mod patch;
pub mod post;
pub mod queue;
pub mod resolved;
pub mod review;
pub mod shift;
pub mod status;
