pub mod anillo;
pub mod eleccion;
pub mod mensajes_eleccion;
pub mod recorrido;
