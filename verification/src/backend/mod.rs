pub mod websocket;
