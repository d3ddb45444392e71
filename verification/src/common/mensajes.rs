use crate::common::mensajes_gateway::MensajeGateway;
use crate::direccion::{Coordenadas, Direccion};
use vstd::prelude::*;

verus! {

/// What the server hands to the payment path: whom to charge, how much (in
/// hundredths), and which service of the gateway to call.
#[derive(Clone, Debug, PartialEq, Eq)]
pub struct EnviarMensajePago {
    pub id_comensal: String,
    pub valor: u32,
    pub tipo_mensaje: MensajeGateway,
}

/// Outcome of the authorisation step for one diner.
#[derive(Clone, Copy, Debug, PartialEq, Eq)]
pub struct Autorizacion {
    pub direccion_comensal: Direccion,
    pub esta_autorizado: bool,
}

/// Answer to "who is coordinator".
#[derive(Clone, Copy, Debug, PartialEq, Eq)]
pub struct QuienEsCoordinador {
    pub direccion_coordinador: Direccion,
}

/// A restaurant's verdict on an order, with the delivery it asks for.
#[derive(Clone, Debug, PartialEq, Eq)]
pub struct SolicitarRepartidor {
    pub comida: String,
    pub origen: Coordenadas,
    pub destino: Coordenadas,
    pub pedido_aceptado: bool,
    pub direccion_comensal: Direccion,
}

/// Offer of a delivery to a courier.
#[derive(Clone, Copy, Debug, PartialEq, Eq)]
pub struct OfertarViaje {
    pub direccion_comensal_o: Direccion,
}

/// A courier's answer to an offer.
#[derive(Clone, Copy, Debug, PartialEq, Eq)]
pub struct RespuestaOfertaViaje {
    pub direccion_comensal_r: Direccion,
    pub esta_aceptado: bool,
}

/// Start signal, sent to the diner and to the courier alike.
#[derive(Clone, Copy, Debug, PartialEq, Eq)]
pub struct IniciarViajeDelivery {
    pub direccion_comensal_i: Direccion,
    pub direccion_conductor_i: Direccion,
    pub origen_i: Coordenadas,
    pub destino_i: Coordenadas,
}

/// Final refusal of an order, with the reason in words.
#[derive(Clone, Debug, PartialEq, Eq)]
pub struct RechazarViaje {
    pub respuesta: String,
}

/// Report that a delivery reached its destination.
#[derive(Clone, Copy, Debug, PartialEq, Eq)]
pub struct FinalizarViaje {
    pub direccion_comensal_f: Direccion,
    pub direccion_conductor_f: Direccion,
    pub pos_destino: Coordenadas,
}

/// A courier's position announcement.
#[derive(Clone, Copy, Debug, PartialEq, Eq)]
pub struct Posicion {
    pub posicion: Coordenadas,
}

/// A courier that looks for work, with where it stands.
#[derive(Clone, Copy, Debug, PartialEq, Eq)]
pub struct BuscandoTrabajoRepartidor {
    pub buscando_trabajo: bool,
    pub posicion: Coordenadas,
}

/// Identity announcement of a restaurant or a courier.
#[derive(Clone, Copy, Debug, PartialEq, Eq)]
pub struct MensajeIdentidad {
    pub ubicacion: Coordenadas,
    pub soy_repartidor: bool,
}

/// A diner's order.
#[derive(Clone, Debug, PartialEq, Eq)]
pub struct SolicitarPedido {
    pub comida: String,
    pub destino: Coordenadas,
}

/// Offer of an order to a restaurant.
#[derive(Clone, Debug, PartialEq, Eq)]
pub struct RecibirPedido {
    pub direccion_comensal_o: Direccion,
    pub comida: String,
    pub ubicacion_comensal: Coordenadas,
}

/// An authorised order on its way to a restaurant.
#[derive(Clone, Debug, PartialEq, Eq)]
pub struct PedidoAlRestaurante {
    pub direccion_comensal_r: Direccion,
    pub esta_aceptado: bool,
    pub comida: String,
    pub posicion_comensal: Coordenadas,
}

} // verus!
