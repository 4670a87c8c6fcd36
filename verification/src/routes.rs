pub mod admin_password;
pub mod subscriptions_confirm;
