//! The registry behind a mock HTTP server: stubs are registered in order,
//! requests are dispatched to the first active stub that matches them, and
//! each stub's call-count expectation is verified on demand.

pub mod active_mock;
pub mod mock_set;
pub mod request;
pub mod verification;
