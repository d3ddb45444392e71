pub mod almacenamiento;
pub mod handlers_almacenamiento;
pub mod mensajes_almacenamiento;
