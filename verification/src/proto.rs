//! Messages exchanged with the remote task service.

pub mod tasks_service;
