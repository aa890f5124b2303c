pub mod text;
pub mod registry;
pub mod json;
pub mod control;
pub mod exchanges;
pub mod websocket;
pub mod unix_socket;
pub mod channels;
