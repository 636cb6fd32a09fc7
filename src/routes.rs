pub mod subscribe_flow;
pub mod subscriptions;
pub mod subscriptions_confirm;
pub mod token;

pub use subscriptions::{FormData, SubscribeError};
pub use subscriptions_confirm::Parameters;
