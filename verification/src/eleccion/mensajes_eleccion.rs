use crate::direccion::Direccion;
use vstd::prelude::*;

verus! {

/// Tick of the liveness timer: time to probe the leader.
#[derive(Clone, Copy, Debug, PartialEq, Eq)]
pub struct PingCoordinador;

/// Query: does this replica believe itself leader?
#[derive(Clone, Copy, Debug, PartialEq, Eq)]
pub struct SoyCoordinador;

/// Query: whom does this replica believe to be leader?
#[derive(Clone, Copy, Debug, PartialEq, Eq)]
pub struct ObtenerDireccionLider;

/// Request to start an election.
#[derive(Clone, Copy, Debug, PartialEq, Eq)]
pub struct IniciarEleccion;

/// The message that travels round the ring and gathers candidates.
#[derive(Clone, Debug, PartialEq, Eq)]
pub struct MensajeEleccion {
    pub candidatos: Vec<Direccion>,
}

/// Liveness probe, with the address of the replica that sends it.
#[derive(Clone, Copy, Debug, PartialEq, Eq)]
pub struct MensajePing {
    pub id_enviador: Direccion,
}

/// Announcement of the leader.
#[derive(Clone, Copy, Debug, PartialEq, Eq)]
pub struct MensajeCoordinador {
    pub coordinador: Direccion,
}

/// Sets the leader that this replica believes in.
#[derive(Clone, Copy, Debug, PartialEq, Eq)]
pub struct AsignarDireccionLider {
    pub id_coordinador: Direccion,
}

/// Query for the believed leader, from inside the election component.
#[derive(Clone, Copy, Debug, PartialEq, Eq)]
pub struct ObtenerDireccionCoordinador;

} // verus!
