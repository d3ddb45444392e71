pub mod acciones_gateway;
pub mod cadenas;
pub mod constantes;
pub mod diccionario;
pub mod entidades;
pub mod errores_servidor;
