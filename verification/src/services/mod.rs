pub mod chat_server;
pub mod connection;
pub mod email;
pub mod frames;
pub mod notification_service;
pub mod order_service;
pub mod room_registry;
pub mod session_registry;
