pub mod task_usecase;
