//! The workflows behind the service's endpoints.

pub mod newsletter;
pub mod subscriptions;
pub mod subscriptions_confirm;

pub use newsletter::{ErrorResponse, PublishError};
pub use subscriptions::{FormData, SubscribeError};
pub use subscriptions_confirm::{ConfirmError, Parameters};
