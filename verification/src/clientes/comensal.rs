use crate::common::mensajes::{
    FinalizarViaje, IniciarViajeDelivery, RechazarViaje, SolicitarPedido,
};
use crate::server::efectos::MotivoRechazo;
use crate::utils::cadenas::iguales;
use crate::direccion::Coordenadas;
use crate::server::server::{clasificar_linea, linea_control_spec, LineaControl};
use crate::utils::cadenas::recortada;
use vstd::prelude::*;

verus! {

/// What the server's line means to a diner that waits for its order.
#[derive(Clone, Copy, Debug, PartialEq, Eq)]
pub enum MensajeServidor {
    /// The delivery has started.
    IniciarViaje(IniciarViajeDelivery),
    /// The order was refused; the flag says whether by the restaurant.
    Rechazado(bool),
    /// Anything else.
    Desconocido,
}

/// How the wait for the final acknowledgement ended.
#[derive(Clone, Copy, Debug, PartialEq, Eq, Structural)]
pub enum FinDeEspera {
    /// The acknowledgement came.
    Confirmado,
    /// Some other line came.
    Inesperado,
    /// Nothing came in time, or the connection was lost: the leader is
    /// looked for again and the report is sent once more.
    Reconectar,
}

/// A diner: where it lives.
#[derive(Clone, Copy, Debug, PartialEq, Eq)]
pub struct Comensal {
    pub mi_ubicacion: Coordenadas,
}

impl Comensal {
    /// A diner that lives at `mi_ubicacion`.
    pub fn new(mi_ubicacion: Coordenadas) -> (r: Comensal)
        ensures
            r.mi_ubicacion == mi_ubicacion,
    {
        Comensal { mi_ubicacion }
    }

    /// The order for a dish, to be delivered to where the diner lives.
    pub fn solicitar_un_delivery(&self, comida: String) -> (r: SolicitarPedido)
        ensures
            r == (SolicitarPedido { comida, destino: self.mi_ubicacion }),
    {
        SolicitarPedido { comida, destino: self.mi_ubicacion }
    }

    /// What a line of the server means to the diner. `inicio` is the line
    /// as a start signal and `rechazo` the line as a refusal, each where
    /// the line decodes as one; the start signal is looked at first.
    pub fn handle_mensaje_servidor(
        &self,
        inicio: Option<IniciarViajeDelivery>,
        rechazo: Option<&RechazarViaje>,
    ) -> (r: MensajeServidor)
        ensures
            r == match (inicio, rechazo) {
                (Some(i), _) => MensajeServidor::IniciarViaje(i),
                (None, Some(x)) => MensajeServidor::Rechazado(
                    x.respuesta@ == MotivoRechazo::Restaurante.texto_spec(),
                ),
                (None, None) => MensajeServidor::Desconocido,
            },
    {
        match inicio {
            Some(i) => MensajeServidor::IniciarViaje(i),
            None => match rechazo {
                Some(x) => MensajeServidor::Rechazado(
                    iguales(x.respuesta.as_str(), MotivoRechazo::Restaurante.texto()),
                ),
                None => MensajeServidor::Desconocido,
            },
        }
    }

    /// The report that a delivery has arrived, for the delivery that the
    /// start signal announced.
    pub fn esperar_comida(&self, msg: IniciarViajeDelivery) -> (r: FinalizarViaje)
        ensures
            r == viaje_finalizado(msg),
    {
        FinalizarViaje {
            direccion_comensal_f: msg.direccion_comensal_i,
            direccion_conductor_f: msg.direccion_conductor_i,
            pos_destino: msg.destino_i,
        }
    }
}

/// The report that ends the delivery that a start signal began.
pub open spec fn viaje_finalizado(msg: IniciarViajeDelivery) -> FinalizarViaje {
    FinalizarViaje {
        direccion_comensal_f: msg.direccion_comensal_i,
        direccion_conductor_f: msg.direccion_conductor_i,
        pos_destino: msg.destino_i,
    }
}

/// Reads what came while the final acknowledgement was waited for; `None`
/// says that no line came.
pub fn fin_de_espera(linea: Option<&str>) -> (r: FinDeEspera)
    ensures
        r == match linea {
            None => FinDeEspera::Reconectar,
            Some(l) => if linea_control_spec(recortada(l@)) == Some(LineaControl::AckFinal) {
                FinDeEspera::Confirmado
            } else {
                FinDeEspera::Inesperado
            },
        },
{
    match linea {
        None => FinDeEspera::Reconectar,
        Some(l) => match clasificar_linea(l) {
            Some(LineaControl::AckFinal) => FinDeEspera::Confirmado,
            _ => FinDeEspera::Inesperado,
        },
    }
}

} // verus!
