//! Newsletter subscription core: validated subscriber data, the request that
//! carries a transactional email to the delivery provider, and the settings
//! the service is started with.

pub mod configuration;
pub mod credential;
pub mod domain;
pub mod email_client;
