use crate::common::mensajes::{
    IniciarViajeDelivery, OfertarViaje, PedidoAlRestaurante, QuienEsCoordinador, RecibirPedido,
    RechazarViaje,
};
use crate::coordinador::mensajes_coordinador::{
    ActualizarComensales, ActualizarRepartidores, ActualizarRestaurantes, ConectarNuevoServidor,
    HandlePedido,
};
use crate::direccion::Direccion;
use crate::eleccion::mensajes_eleccion::{MensajeCoordinador, MensajeEleccion};
use crate::server::server_coordinador::HacerPedido;
use crate::utils::entidades::Enviador;
use vstd::prelude::*;
use vstd::string::StringExecFns;

verus! {

/// Why an order is refused.
#[derive(Clone, Copy, Debug, PartialEq, Eq, Structural)]
pub enum MotivoRechazo {
    /// The payment was not authorised, or the gateway could not be asked.
    SaldoInsuficiente,
    /// No courier or no restaurant is there to serve the order.
    SinRecursos,
    /// The restaurant refused the order.
    Restaurante,
    /// The courier did not answer in time and was removed.
    RepartidorDesconectado,
    /// No courier is free.
    SinRepartidor,
    /// The courier that was picked cannot be written to.
    EnviadorNoDisponible,
}

impl MotivoRechazo {
    /// The reason in the words that the diner is shown.
    pub open spec fn texto_spec(self) -> Seq<char> {
        match self {
            MotivoRechazo::SaldoInsuficiente => "Viaje rechazado por saldo insuficiente"@,
            MotivoRechazo::SinRecursos => "Viaje rechazado por falta de repartidores o restaurantes"@,
            MotivoRechazo::Restaurante => "Viaje rechazado por restaurante"@,
            MotivoRechazo::RepartidorDesconectado => "El repartidor esta desconectado, intente nuevamente"@,
            MotivoRechazo::SinRepartidor => "Ningun repartidor esta disponible ahora."@,
            MotivoRechazo::EnviadorNoDisponible => "Enviador de repartidor no disponible."@,
        }
    }

    /// The words of the reason.
    pub fn texto(self) -> (r: &'static str)
        ensures
            r@ == self.texto_spec(),
    {
        match self {
            MotivoRechazo::SaldoInsuficiente => "Viaje rechazado por saldo insuficiente",
            MotivoRechazo::SinRecursos => "Viaje rechazado por falta de repartidores o restaurantes",
            MotivoRechazo::Restaurante => "Viaje rechazado por restaurante",
            MotivoRechazo::RepartidorDesconectado => "El repartidor esta desconectado, intente nuevamente",
            MotivoRechazo::SinRepartidor => "Ningun repartidor esta disponible ahora.",
            MotivoRechazo::EnviadorNoDisponible => "Enviador de repartidor no disponible.",
        }
    }

    /// The refusal as it goes over the wire.
    pub fn mensaje(self) -> (r: RechazarViaje)
        ensures
            r.respuesta@ == self.texto_spec(),
    {
        RechazarViaje { respuesta: String::from_str(self.texto()) }
    }
}

/// A line that the server writes to a client or to a peer.
#[derive(Debug, PartialEq, Eq)]
pub enum Linea {
    /// The control string `Ack`: a hop, a ping or a handoff was received.
    Ack,
    /// The control string `ACK`: a delivery is complete.
    AckFinal,
    QuienEsCoordinador(QuienEsCoordinador),
    OfertarViaje(OfertarViaje),
    RecibirPedido(RecibirPedido),
    IniciarViajeDelivery(IniciarViajeDelivery),
    RechazarViaje(MotivoRechazo),
    /// The search of a courier for a diner, handed to a peer.
    HandlePedido(HandlePedido),
}

/// A state change that the leader tells its followers.
#[derive(Clone, Copy, Debug, PartialEq, Eq)]
pub enum Delta {
    Comensales(ActualizarComensales),
    Repartidores(ActualizarRepartidores),
    Restaurantes(ActualizarRestaurantes),
}

/// Something the caller has to do on behalf of the server: the outside work
/// that a handler has decided on.
#[derive(Debug, PartialEq, Eq)]
pub enum Efecto {
    /// Queue a line for the session behind a writer.
    Enviar(Enviador, Linea),
    /// Queue a delta for every peer link; failures are ignored.
    Difundir(Delta),
    /// Ask the gateway whether the diner may be charged. The answer comes
    /// back to `Server::autorizacion`, with the order that waits for it.
    ValidarPago(PedidoAlRestaurante),
    /// Ask the gateway to capture the diner's payment.
    Cobrar(Direccion),
    /// Have the coordinator find a courier for the diner: the caller hands
    /// this to `Server::manejar_pedido`.
    ManejarPedido(HandlePedido),
    /// Propose a courier for a diner to the leader at this address.
    EnviarAlCoordinador(Direccion, HacerPedido),
    /// Tell the coordinator of a replica that made itself known.
    ConectarNuevoServidor(ConectarNuevoServidor),
    /// Pass an election message on to the election component.
    Eleccion(MensajeEleccion),
    /// Pass a leader announcement on to the election component.
    Coordinador(MensajeCoordinador),
}

} // verus!
