use crate::direccion::{Coordenadas, Direccion};
use vstd::prelude::*;

verus! {

/// Where a courier (or a restaurant) stands in the dispatch cycle.
#[derive(Clone, Copy, Debug, PartialEq, Eq, Structural)]
pub enum EstadoRepartidor {
    Active,
    Waiting,
    OnTrip,
}

/// Handle of the task that owns a session's outbound writer. Whoever holds
/// the handle may queue lines for that session; only the owner writes.
pub type Enviador = u64;

/// Monotonic time in milliseconds.
pub type Instante = u64;

/// A diner with an order in flight.
#[derive(Clone, Copy, Debug, PartialEq, Eq)]
pub struct EntidadComensal {
    pub posicion_comensal: Coordenadas,
    pub destino_comensal: Coordenadas,
    pub enviador_comensal: Option<Enviador>,
}

/// A courier known to this replica.
#[derive(Clone, Copy, Debug, PartialEq, Eq)]
pub struct EntidadRepartidor {
    pub posicion_repartidor: Coordenadas,
    pub id_actual_comensal: Option<Direccion>,
    pub restaurante_sender: Option<Enviador>,
    pub estado: EstadoRepartidor,
    pub time_stamp: Instante,
}

impl EntidadRepartidor {
    /// A waiting courier waits for somebody; an active one for nobody.
    pub open spec fn coherente(self) -> bool {
        &&& self.estado == EstadoRepartidor::Waiting ==> self.id_actual_comensal is Some
        &&& self.estado == EstadoRepartidor::Active ==> self.id_actual_comensal is None
    }
}

/// A restaurant known to this replica.
#[derive(Clone, Copy, Debug, PartialEq, Eq)]
pub struct EntidadRestaurante {
    pub posicion_restaurante: Coordenadas,
    pub repartidor_sender: Option<Enviador>,
    pub estado: EstadoRepartidor,
    pub time_stamp: Instante,
}

} // verus!
