pub mod admin;
pub mod home;
pub mod login;
pub mod subscriptions;
pub mod subscriptions_confirm;
