pub mod coordinador;
pub mod mensajes_coordinador;
