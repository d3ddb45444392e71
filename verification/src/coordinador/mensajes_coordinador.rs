use crate::direccion::{Coordenadas, Direccion};
use crate::utils::entidades::{Enviador, EstadoRepartidor};
use vstd::prelude::*;

verus! {

/// This replica has become leader and takes up coordination.
#[derive(Clone, Copy, Debug, PartialEq, Eq)]
pub struct ConvertirseEnCoordinador;

/// A replica that made itself known and may have to be connected to.
#[derive(Clone, Copy, Debug, PartialEq, Eq)]
pub struct ConectarNuevoServidor {
    pub nuevo_servidor: Direccion,
}

/// What a state delta does to the entity it names.
#[derive(Clone, Copy, Debug, PartialEq, Eq, Structural)]
pub enum Accion {
    Insertar,
    Eliminar,
    Actualizar,
}

/// State delta on a diner.
#[derive(Clone, Copy, Debug, PartialEq, Eq)]
pub struct ActualizarComensales {
    pub accion: Accion,
    pub comensal: Direccion,
    pub origen: Coordenadas,
    pub destino: Coordenadas,
}

/// State delta on a courier.
#[derive(Clone, Copy, Debug, PartialEq, Eq)]
pub struct ActualizarRepartidores {
    pub accion: Accion,
    pub repartidor: Direccion,
    pub posicion: Coordenadas,
    pub id_comensal_actual: Option<Direccion>,
    pub status: EstadoRepartidor,
}

/// Hands the search of a courier for a diner to a replica.
#[derive(Clone, Copy, Debug, PartialEq, Eq)]
pub struct HandlePedido {
    pub id_comensal_ht: Direccion,
}

/// Records the writer of a peer link.
#[derive(Clone, Copy, Debug, PartialEq, Eq)]
pub struct AgregarServidorADiccionario {
    pub serv_address: Direccion,
    pub serv_enviador: Enviador,
}

/// Query for the peer links.
#[derive(Clone, Copy, Debug, PartialEq, Eq)]
pub struct ObtenerPeerDict;

/// Takes the next number of the round-robin counter.
#[derive(Clone, Copy, Debug, PartialEq, Eq)]
pub struct ObtenerContadorPeer;

/// State delta on a restaurant, as replicas take it in.
#[derive(Clone, Copy, Debug, PartialEq, Eq)]
pub struct UpdateRepartidores {
    pub accion: Accion,
    pub repartidor: Direccion,
    pub posicion: Coordenadas,
    pub id_comensal_actual: Option<Direccion>,
    pub status: EstadoRepartidor,
    pub repartidor_activo: bool,
}

/// State delta on a restaurant.
#[derive(Clone, Copy, Debug, PartialEq, Eq)]
pub struct ActualizarRestaurantes {
    pub accion: Accion,
    pub restaurante: Direccion,
    pub posicion: Coordenadas,
    pub id_comensal_actual: Option<Direccion>,
    pub status: EstadoRepartidor,
}

} // verus!
