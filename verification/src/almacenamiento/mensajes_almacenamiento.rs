use crate::direccion::{Coordenadas, Direccion};
use crate::common::mensajes::FinalizarViaje;
use crate::utils::entidades::{
    EntidadComensal, EntidadRepartidor, EntidadRestaurante, Enviador, EstadoRepartidor, Instante,
};
use vstd::prelude::*;

verus! {

/// A courier that the reaper removed, with the diner it was holding up.
#[derive(Clone, Copy, Debug, PartialEq, Eq)]
pub struct RepartidorAusente {
    pub id_repartidor: Direccion,
    pub id_comensal: Option<Direccion>,
    pub enviador_comensal: Option<Enviador>,
}

/// Asks for the diner stored under an address.
#[derive(Clone, Copy, Debug, PartialEq, Eq)]
pub struct ObtenerComensal {
    pub id: Direccion,
}

/// Asks for the courier stored under an address.
#[derive(Clone, Copy, Debug, PartialEq, Eq)]
pub struct ObtenerRepartidor {
    pub id: Direccion,
}

/// Sets state, assignment and time of a courier.
#[derive(Clone, Copy, Debug, PartialEq, Eq)]
pub struct ActualizarRepartidor {
    pub id_repartidor: Direccion,
    pub id_comensal: Option<Direccion>,
    pub estado: EstadoRepartidor,
    pub time_stamp: Instante,
}

/// Asks whether a courier and a restaurant are known.
#[derive(Clone, Copy, Debug, PartialEq, Eq)]
pub struct HayRecursosDisponibles;

/// Inserts a courier, or refreshes one that is known.
#[derive(Clone, Copy, Debug, PartialEq, Eq)]
pub struct InsertarRepartidor {
    pub id: Direccion,
    pub posicion_restaurante: Coordenadas,
    pub id_comensal_actual: Option<Direccion>,
    pub enviador_repartidor: Option<Enviador>,
    pub estado: EstadoRepartidor,
    pub time_stamp: Instante,
}

/// Records a diner with an order in flight.
#[derive(Clone, Copy, Debug, PartialEq, Eq)]
pub struct InsertarComensal {
    pub id: Direccion,
    pub posicion_restaurante_del_pedido: Coordenadas,
    pub ubicacion_comensal: Coordenadas,
    pub enviador_comensal: Option<Enviador>,
}

/// Inserts a restaurant, or refreshes one that is known.
#[derive(Clone, Copy, Debug, PartialEq, Eq)]
pub struct InsertarRestaurante {
    pub id: Direccion,
    pub posicion_repartidor: Coordenadas,
    pub enviador_repartidor: Option<Enviador>,
    pub estado: EstadoRepartidor,
    pub time_stamp: Instante,
}

/// Forgets a diner.
#[derive(Clone, Copy, Debug, PartialEq, Eq)]
pub struct BorrarComensal {
    pub id: Direccion,
}

/// Forgets a courier.
#[derive(Clone, Copy, Debug, PartialEq, Eq)]
pub struct BorrarRepartidor {
    pub id: Direccion,
}

/// Forgets a restaurant.
#[derive(Clone, Copy, Debug, PartialEq, Eq)]
pub struct BorrarRestaurante {
    pub id: Direccion,
}

/// Asks for the free courier nearest to the origin of the map.
#[derive(Clone, Copy, Debug, PartialEq, Eq)]
pub struct ObtenerRepartidorCercano;

/// Asks whether a diner is no longer stored.
#[derive(Clone, Copy, Debug, PartialEq, Eq)]
pub struct Finalizado {
    pub id_comensal: Direccion,
}

/// Asks for a scan for stalled couriers.
#[derive(Clone, Copy, Debug, PartialEq, Eq)]
pub struct BorrarRepartidoresAusentes;

/// Asks for the open restaurant nearest to a diner.
#[derive(Clone, Copy, Debug, PartialEq, Eq)]
pub struct QuieroPedidoSoyComensal {
    pub ubicacion_comensal: Coordenadas,
}

/// Records where the order of a diner is picked up.
#[derive(Clone, Copy, Debug, PartialEq, Eq)]
pub struct ActualizarComensalUbicacionRestaurante {
    pub nueva_ubicacion: Coordenadas,
    pub id_comensal: Direccion,
}

/// The messages of the store's mailbox.
#[derive(Clone, Copy, Debug, PartialEq, Eq)]
pub enum MensajeAlmacenamiento {
    InsertarRepartidor(InsertarRepartidor),
    InsertarComensal(InsertarComensal),
    InsertarRestaurante(InsertarRestaurante),
    ObtenerComensal(ObtenerComensal),
    ObtenerRepartidor(ObtenerRepartidor),
    ActualizarRepartidor(ActualizarRepartidor),
    ActualizarComensalUbicacionRestaurante(ActualizarComensalUbicacionRestaurante),
    BorrarRepartidor(BorrarRepartidor),
    BorrarComensal(BorrarComensal),
    BorrarRestaurante(BorrarRestaurante),
    ObtenerRepartidorCercano(ObtenerRepartidorCercano),
    FinalizarViaje(FinalizarViaje),
    Finalizado(Finalizado),
    BorrarRepartidoresAusentes(BorrarRepartidoresAusentes),
    QuieroPedidoSoyComensal(QuieroPedidoSoyComensal),
    HayRecursosDisponibles(HayRecursosDisponibles),
}

/// What the store answers to a message.
#[derive(Debug, PartialEq, Eq)]
pub enum RespuestaAlmacenamiento {
    /// The message was taken; it asks for no answer.
    Hecho,
    Comensal(Option<EntidadComensal>),
    Repartidor(Option<EntidadRepartidor>),
    Restaurante(Option<EntidadRestaurante>),
    Cercano(Option<Direccion>),
    Finalizado(bool),
    Recursos(bool),
    Ausentes(Vec<RepartidorAusente>),
}

} // verus!
