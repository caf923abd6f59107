pub mod parameters;
pub mod subscriber;

pub use parameters::{Parameters, SubscriptionToken};
pub use subscriber::{NewSubscriber, Subscriber};
