use crate::common::mensajes::QuienEsCoordinador;
use crate::coordinador::mensajes_coordinador::ConectarNuevoServidor;
use crate::eleccion::eleccion::{EleccionCoordinador, RespuestaConsulta};
use crate::eleccion::mensajes_eleccion::MensajePing;
use crate::eleccion::recorrido::Intento;
use crate::server::efectos::{Efecto, Linea};
use crate::server::server::{clasificar_linea, linea_control_spec, LineaControl, Server};
use crate::utils::cadenas::recortada;
use vstd::prelude::*;

verus! {

/// The question for the leader, as a message.
#[derive(Clone, Copy, Debug, PartialEq, Eq)]
pub struct WhoIsCoordinator;

impl Server {
    /// What a ping is answered with: the acknowledgement, and a note to
    /// the coordinator that the sender is alive.
    pub open spec fn mensaje_ping_spec(&self, msg: MensajePing) -> Seq<Efecto> {
        seq![
            Efecto::Enviar(self.tcp_enviador, Linea::Ack),
            Efecto::ConectarNuevoServidor(ConectarNuevoServidor { nuevo_servidor: msg.id_enviador }),
        ]
    }

    /// A peer probes this replica.
    pub fn mensaje_ping(&self, msg: MensajePing) -> (r: Vec<Efecto>)
        ensures
            r@ == self.mensaje_ping_spec(msg),
    {
        let mut efectos: Vec<Efecto> = Vec::new();
        efectos.push(Efecto::Enviar(self.tcp_enviador, Linea::Ack));
        efectos.push(
            Efecto::ConectarNuevoServidor(ConectarNuevoServidor { nuevo_servidor: msg.id_enviador }),
        );
        efectos
    }

    /// What "who is coordinator" is answered with: the believed leader, or
    /// the bare acknowledgement where none is known.
    pub open spec fn who_is_coordinator_spec(&self, eleccion: &EleccionCoordinador) -> Seq<Efecto> {
        seq![
            Efecto::Enviar(
                self.tcp_enviador,
                match eleccion.id_coordinador {
                    Some(c) => Linea::QuienEsCoordinador(
                        QuienEsCoordinador { direccion_coordinador: c },
                    ),
                    None => Linea::Ack,
                },
            ),
        ]
    }

    /// Somebody asks who the leader is.
    pub fn who_is_coordinator(
        &self,
        _msg: WhoIsCoordinator,
        eleccion: &EleccionCoordinador,
    ) -> (r: Vec<Efecto>)
        ensures
            r@ == self.who_is_coordinator_spec(eleccion),
    {
        let mut efectos: Vec<Efecto> = Vec::new();
        let linea = match eleccion.id_coordinador {
            Some(c) => Linea::QuienEsCoordinador(QuienEsCoordinador { direccion_coordinador: c }),
            None => Linea::Ack,
        };
        efectos.push(Efecto::Enviar(self.tcp_enviador, linea));
        efectos
    }
}

/// What a peer that was asked for the leader has answered. `nombrado` is
/// the leader that its line names, where the line decodes as such an
/// answer. A line that names no leader and is the bare acknowledgement
/// says that the peer knows none. Anything else, or no line, is no usable
/// answer.
pub fn respuesta_de_consulta(intento: &Intento, nombrado: Option<QuienEsCoordinador>) -> (r:
    RespuestaConsulta)
    ensures
        r == match *intento {
            Intento::Respuesta(l) => match nombrado {
                Some(q) => RespuestaConsulta::Lider(q),
                None => if linea_control_spec(recortada(l@)) == Some(LineaControl::Ack) {
                    RespuestaConsulta::SinLider
                } else {
                    RespuestaConsulta::Nada
                },
            },
            _ => RespuestaConsulta::Nada,
        },
{
    match intento {
        Intento::Respuesta(l) => match nombrado {
            Some(q) => RespuestaConsulta::Lider(q),
            None => match clasificar_linea(l.as_str()) {
                Some(LineaControl::Ack) => RespuestaConsulta::SinLider,
                _ => RespuestaConsulta::Nada,
            },
        },
        _ => RespuestaConsulta::Nada,
    }
}

} // verus!
