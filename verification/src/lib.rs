//! Coordination core of a replicated food-delivery service, together with the
//! review statistics that the batch aggregator computes.
//!
//! Every replica owns a soft-state store, an election state and a peer table.
//! The functions here take the replica's state and one event and return the
//! next state and the actions to perform; sockets, timers and serialisation
//! stay with the caller.

pub mod almacenamiento;
pub mod clientes;
pub mod common;
pub mod coordinador;
pub mod direccion;
pub mod eleccion;
pub mod gateway;
pub mod resenas;
pub mod server;
pub mod utils;
