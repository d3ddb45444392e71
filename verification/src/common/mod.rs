pub mod mensajes;
pub mod mensajes_gateway;
