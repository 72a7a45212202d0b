//! A small subscription service: form intake, the record to store, and the
//! replies of its three routes.

pub mod form;
pub mod routes;
pub mod subscription;

pub use form::{form_from_pairs, parse_form, FormData};
pub use routes::{health_check, index, insert_reply, subscribe, subscribe_at, Intake, Reply};
pub use subscription::{new_subscription, subscription_at, Subscription};
