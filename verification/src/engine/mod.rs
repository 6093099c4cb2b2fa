pub mod decision;
pub mod ev;
pub mod probability;
pub mod sink;
