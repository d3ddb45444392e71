pub mod client_server;
pub mod coordinador_server;
pub mod efectos;
pub mod leyes;
pub mod ping;
pub mod reaper;
pub mod server;
pub mod server_almacenamiento;
pub mod server_client;
pub mod server_coordinador;
