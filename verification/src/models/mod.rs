pub mod annotation;
pub mod notification;
pub mod order;
pub mod rating;
pub mod rfq;
pub mod user;
