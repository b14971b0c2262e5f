pub mod history;
pub mod task_repository;
