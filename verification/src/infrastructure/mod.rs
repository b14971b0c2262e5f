pub mod db;
pub mod task_repository;
