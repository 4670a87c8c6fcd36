//! Request handling logic of the newsletter service: the password change
//! flow of the admin area, the page that hosts its form, the subscription
//! confirmation parameters and the start-up defaults.

pub mod authentication;
pub mod domain;
pub mod routes;
pub mod startup;
