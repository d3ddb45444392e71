pub mod configurar_argumentos;
pub mod estadisticas;
pub mod formatear_datos_json;
pub mod idioma;
pub mod idioma_output;
pub mod juego;
pub mod juego_output;
pub mod orden;
pub mod parsear_csv;
pub mod review;
