//! Mock account endpoints and local image storage for the SlateHub API,
//! with the request-independent logic proved correct.
pub mod error;
pub mod mock_api;
pub mod models;
pub mod storage;
pub mod text;
