//! Services: filters, templates, worker configuration and workspace logic.
pub mod filter;
pub mod template;
pub mod worker_runtime;
pub mod runner;
pub mod global_config;
pub mod workspace_registry;
pub mod workspace;
pub mod event_poller;
pub mod polled_events;
pub mod session_service;
pub mod batch_service;
pub mod checkpoint_service;
pub mod summary_service;
pub mod task_service;
pub mod initiative_service;
pub mod project_service;
pub mod search_service;
pub mod event_consumer;
