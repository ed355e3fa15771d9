pub mod middlewares;
pub mod sockets;
