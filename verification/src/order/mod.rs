pub mod manager;
pub mod paper_executor;
