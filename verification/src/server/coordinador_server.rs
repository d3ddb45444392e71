use crate::almacenamiento::almacenamiento::{
    lema_vista_bien_formada, Almacenamiento, VistaAlmacenamiento,
};
use crate::coordinador::coordinador::Coordinador;
use crate::almacenamiento::mensajes_almacenamiento::ObtenerRepartidorCercano;
use crate::coordinador::mensajes_coordinador::HandlePedido;
use crate::direccion::Direccion;
use crate::eleccion::eleccion::EleccionCoordinador;
use crate::eleccion::recorrido::{Intento, Recorrido};
use crate::server::efectos::{Efecto, Linea};
use crate::utils::entidades::{Enviador, Instante};
use crate::server::server::{linea_control_spec, clasificar_linea, LineaControl, Server};
use crate::server::server_coordinador::HacerPedido;
use crate::utils::cadenas::recortada;
use vstd::prelude::*;

verus! {

/// Asks for the free courier nearest to the diner's order.
#[derive(Clone, Copy, Debug, PartialEq, Eq)]
pub struct EncontrarRepartidorCercano {
    pub direccion_comensal: Direccion,
}

/// How the handing of a proposal to the leader ended.
#[derive(Clone, Copy, Debug, PartialEq, Eq, Structural)]
pub enum ResultadoEnvio {
    /// The leader could not be reached, or did not answer in time.
    SinRespuesta,
    /// The leader acknowledged the proposal.
    Aceptado,
    /// The leader answered something else.
    NoAceptado,
}

/// What comes next while a proposal is handed to the leader.
#[derive(Clone, Copy, Debug, PartialEq, Eq)]
pub enum PasoViaje {
    /// Hand the proposal to the leader at this address.
    Intentar(Direccion),
    /// The leader answered without acknowledging: the search starts again.
    Buscar(HandlePedido),
    /// Nothing is left to do: the leader acknowledged, or stayed silent, or
    /// could not be reached on any attempt.
    Nada,
}

/// The proposal that goes to the leader for a diner when the search found
/// `cercano`: the all-zero address stands for "no courier".
pub open spec fn propuesta(comensal: Direccion, cercano: Option<Direccion>) -> HacerPedido {
    HacerPedido {
        id_comensal_mt: comensal,
        id_repartidor_mt: match cercano {
            Some(r) => r,
            None => Direccion { ip: 0, puerto: 0 },
        },
    }
}

impl Server {
    /// What a search for a courier comes to on this replica. Without a
    /// known leader nothing is done. Otherwise a free courier nearest to the
    /// origin of the map is proposed, or nobody where none is free: to the
    /// leader over the network, or, where this replica is the leader, to
    /// itself at once.
    pub open spec fn handle_pedido_post(
        &self,
        v: VistaAlmacenamiento,
        lider: Option<Direccion>,
        msg: HandlePedido,
        ahora: Instante,
        w: VistaAlmacenamiento,
        efectos: Seq<Efecto>,
    ) -> bool {
        match lider {
            None => w == v && efectos == Seq::<Efecto>::empty(),
            Some(c) => exists|cercano: Option<Direccion>|
                {
                    &&& #[trigger] v.es_repartidor_cercano(cercano)
                    &&& if c == self.addr {
                        (w, efectos) == Server::hacer_pedido_spec(
                            v,
                            propuesta(msg.id_comensal_ht, cercano),
                            ahora,
                        )
                    } else {
                        w == v && efectos == seq![
                            Efecto::EnviarAlCoordinador(c, propuesta(msg.id_comensal_ht, cercano)),
                        ]
                    }
                },
        }
    }

    /// Looks for a courier for a diner in this replica's store and proposes
    /// it to the leader.
    pub fn handle_pedido(
        &self,
        msg: HandlePedido,
        eleccion: &EleccionCoordinador,
        almacenamiento: &mut Almacenamiento,
        ahora: Instante,
    ) -> (r: Vec<Efecto>)
        ensures
            final(almacenamiento)@.bien_formada(),
            self.handle_pedido_post(
                old(almacenamiento)@,
                eleccion.id_coordinador,
                msg,
                ahora,
                final(almacenamiento)@,
                r@,
            ),
    {
        self.encontrar_repartidor_cercano(
            EncontrarRepartidorCercano { direccion_comensal: msg.id_comensal_ht },
            eleccion,
            almacenamiento,
            ahora,
        )
    }

    /// The search itself.
    pub fn encontrar_repartidor_cercano(
        &self,
        msg: EncontrarRepartidorCercano,
        eleccion: &EleccionCoordinador,
        almacenamiento: &mut Almacenamiento,
        ahora: Instante,
    ) -> (r: Vec<Efecto>)
        ensures
            final(almacenamiento)@.bien_formada(),
            self.handle_pedido_post(
                old(almacenamiento)@,
                eleccion.id_coordinador,
                HandlePedido { id_comensal_ht: msg.direccion_comensal },
                ahora,
                final(almacenamiento)@,
                r@,
            ),
    {
        let mut efectos: Vec<Efecto> = Vec::new();
        let cercano = almacenamiento.obtener_repartidor_cercano(ObtenerRepartidorCercano);
        let lider = match eleccion.id_coordinador {
            Some(c) => c,
            None => {
                return efectos;
            },
        };
        let id_repartidor_mt = match cercano {
            Some(r) => r,
            None => Direccion::nula(),
        };
        let hacer_viaje = HacerPedido { id_comensal_mt: msg.direccion_comensal, id_repartidor_mt };
        assert(hacer_viaje == propuesta(msg.direccion_comensal, cercano));
        if lider == self.addr {
            self.hacer_pedido(hacer_viaje, almacenamiento, ahora)
        } else {
            efectos.push(Efecto::EnviarAlCoordinador(lider, hacer_viaje));
            efectos
        }
    }

    /// What the wish for a courier comes to on the leader. The coordinator
    /// picks a peer by turns and the search is handed to it; where no peer
    /// has a usable link, the search is done on this replica.
    pub open spec fn manejar_pedido_post(
        &self,
        v: VistaAlmacenamiento,
        elegido: Option<Enviador>,
        lider: Option<Direccion>,
        msg: HandlePedido,
        ahora: Instante,
        w: VistaAlmacenamiento,
        efectos: Seq<Efecto>,
    ) -> bool {
        match elegido {
            Some(e) => w == v && efectos == seq![Efecto::Enviar(e, Linea::HandlePedido(msg))],
            None => self.handle_pedido_post(v, lider, msg, ahora, w, efectos),
        }
    }

    /// Has a courier found for a diner: by a peer, or by this replica where
    /// no peer can be reached.
    pub fn manejar_pedido(
        &self,
        msg: HandlePedido,
        coordinador: &mut Coordinador,
        eleccion: &EleccionCoordinador,
        almacenamiento: &mut Almacenamiento,
        ahora: Instante,
    ) -> (r: Vec<Efecto>)
        ensures
            final(almacenamiento)@.bien_formada(),
            final(coordinador).mismo_entorno(old(coordinador)),
            final(coordinador).enlaces() == old(coordinador).enlaces(),
            exists|elegido: Option<Enviador>|
                {
                    &&& #[trigger] old(coordinador).elige(
                        ahora,
                        elegido,
                        final(coordinador).contador(),
                    )
                    &&& self.manejar_pedido_post(
                        old(almacenamiento)@,
                        elegido,
                        eleccion.id_coordinador,
                        msg,
                        ahora,
                        final(almacenamiento)@,
                        r@,
                    )
                },
    {
        let elegido = coordinador.handle_pedido(msg, ahora);
        match elegido {
            Some(e) => {
                proof {
                    use_type_invariant(&*almacenamiento);
                    lema_vista_bien_formada(*almacenamiento);
                }
                let mut efectos: Vec<Efecto> = Vec::new();
                efectos.push(Efecto::Enviar(e, Linea::HandlePedido(msg)));
                efectos
            },
            None => self.handle_pedido(msg, eleccion, almacenamiento, ahora),
        }
    }
}

/// The attempts at handing a proposal to the leader.
pub fn enviar_viaje_a_coordinador(coordinador: Direccion) -> (r: Recorrido)
    ensures
        r.destinos() == seq![coordinador],
        r.indice() == 0,
        r.intentos() == 0,
{
    let mut destinos: Vec<Direccion> = Vec::new();
    destinos.push(coordinador);
    Recorrido::new(destinos)
}

/// Reads the leader's answer to a proposal; `None` says that no line came
/// in time.
pub fn respuesta_de_coordinador(linea: Option<&str>) -> (r: ResultadoEnvio)
    ensures
        r == match linea {
            None => ResultadoEnvio::SinRespuesta,
            Some(l) => if linea_control_spec(recortada(l@)) == Some(LineaControl::Ack) {
                ResultadoEnvio::Aceptado
            } else {
                ResultadoEnvio::NoAceptado
            },
        },
{
    match linea {
        None => ResultadoEnvio::SinRespuesta,
        Some(l) => match clasificar_linea(l) {
            Some(LineaControl::Ack) => ResultadoEnvio::Aceptado,
            _ => ResultadoEnvio::NoAceptado,
        },
    }
}

/// What follows the handing of a proposal: where the leader answered but
/// did not acknowledge, the search starts again; else nothing is left to do.
pub fn tras_enviar_viaje(hacer_viaje: HacerPedido, resultado: ResultadoEnvio) -> (r: Option<
    HandlePedido,
>)
    ensures
        r == if resultado == ResultadoEnvio::NoAceptado {
            Some(HandlePedido { id_comensal_ht: hacer_viaje.id_comensal_mt })
        } else {
            None
        },
{
    match resultado {
        ResultadoEnvio::NoAceptado => Some(
            HandlePedido { id_comensal_ht: hacer_viaje.id_comensal_mt },
        ),
        _ => None,
    }
}

/// What the outcome of an attempt at handing over a proposal comes to,
/// without regard to the attempts left: nothing where the leader was
/// connected to and did not answer.
pub open spec fn resultado_de_intento(intento: Intento) -> ResultadoEnvio {
    match intento {
        Intento::Respuesta(l) => if linea_control_spec(recortada(l@)) == Some(LineaControl::Ack) {
            ResultadoEnvio::Aceptado
        } else {
            ResultadoEnvio::NoAceptado
        },
        _ => ResultadoEnvio::SinRespuesta,
    }
}

/// Takes the outcome of handing a proposal to the leader of the walk. A
/// leader that could not be connected to is tried again while it has
/// attempts. One that was connected to is not tried again: its
/// acknowledgement or its silence ends the matter, and any other answer
/// starts the search again.
pub fn respuesta_de_viaje(hacer_viaje: HacerPedido, envio: &mut Recorrido, intento: &Intento) -> (r:
    PasoViaje)
    ensures
        intento is SinConexion ==> {
            &&& old(envio).tras_fallo(final(envio))
            &&& r == match final(envio).objetivo_spec() {
                Some(d) => PasoViaje::Intentar(d),
                None => PasoViaje::Nada,
            }
        },
        !(intento is SinConexion) ==> {
            &&& *final(envio) == *old(envio)
            &&& r == if resultado_de_intento(*intento) == ResultadoEnvio::NoAceptado {
                PasoViaje::Buscar(HandlePedido { id_comensal_ht: hacer_viaje.id_comensal_mt })
            } else {
                PasoViaje::Nada
            }
        },
{
    match intento {
        Intento::SinConexion => {
            envio.registrar_fallo();
            match envio.objetivo() {
                Some(d) => PasoViaje::Intentar(d),
                None => PasoViaje::Nada,
            }
        },
        Intento::Respuesta(l) => {
            let resultado = respuesta_de_coordinador(Some(l.as_str()));
            match tras_enviar_viaje(hacer_viaje, resultado) {
                Some(h) => PasoViaje::Buscar(h),
                None => PasoViaje::Nada,
            }
        },
        _ => PasoViaje::Nada,
    }
}

} // verus!
