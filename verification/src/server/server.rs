use crate::almacenamiento::almacenamiento::{
    lema_vista_bien_formada, Almacenamiento, VistaAlmacenamiento,
};
use crate::almacenamiento::mensajes_almacenamiento::{BorrarComensal, ObtenerComensal};
use crate::common::mensajes::{
    Autorizacion, FinalizarViaje, MensajeIdentidad, PedidoAlRestaurante, Posicion,
    RespuestaOfertaViaje, SolicitarPedido, SolicitarRepartidor,
};
use crate::coordinador::mensajes_coordinador::{
    Accion, ActualizarComensales, ActualizarRepartidores, ActualizarRestaurantes, HandlePedido,
};
use crate::direccion::{Coordenadas, Direccion};
use crate::eleccion::eleccion::EleccionCoordinador;
use crate::eleccion::mensajes_eleccion::{MensajeCoordinador, MensajeEleccion, MensajePing};
use crate::server::efectos::{Delta, Efecto, Linea, MotivoRechazo};
use crate::server::server_coordinador::HacerPedido;
use crate::utils::cadenas::{iguales, recortada, recortar};
use crate::utils::entidades::{Enviador, EstadoRepartidor, Instante};
use crate::utils::errores_servidor::ServidorError;
use vstd::prelude::*;
use vstd::string::StringExecFns;

verus! {

/// One session of the connection hub: the replica it belongs to, the client
/// or peer at the other end, and the writer towards it.
#[derive(Clone, Copy, Debug, PartialEq, Eq)]
pub struct Server {
    pub addr: Direccion,
    pub client_addr: Direccion,
    pub tcp_enviador: Enviador,
}

/// The lines that are no JSON.
#[derive(Clone, Copy, Debug, PartialEq, Eq, Structural)]
pub enum LineaControl {
    /// `WhoIsCoordinator`: the question for the leader.
    WhoIsCoordinator,
    /// `Ack`: a ring hop, a ping or a handoff was received.
    Ack,
    /// `ACK`: a delivery is complete.
    AckFinal,
}

impl LineaControl {
    /// The control string as it is written.
    pub open spec fn texto_spec(self) -> Seq<char> {
        match self {
            LineaControl::WhoIsCoordinator => "WhoIsCoordinator"@,
            LineaControl::Ack => "Ack"@,
            LineaControl::AckFinal => "ACK"@,
        }
    }

    /// The characters of the control string.
    pub fn texto(self) -> (r: &'static str)
        ensures
            r@ == self.texto_spec(),
    {
        match self {
            LineaControl::WhoIsCoordinator => "WhoIsCoordinator",
            LineaControl::Ack => "Ack",
            LineaControl::AckFinal => "ACK",
        }
    }
}

/// A control string that is written and read again is the control string
/// that was written, and a line that is read as a control string is written
/// as the same characters.
pub proof fn ley_control_ida_y_vuelta(c: LineaControl, mensaje: Seq<char>)
    ensures
        linea_control_spec(c.texto_spec()) == Some(c),
        linea_control_spec(mensaje) == Some(c) ==> c.texto_spec() == mensaje,
{
    reveal_strlit("WhoIsCoordinator");
    reveal_strlit("Ack");
    reveal_strlit("ACK");
    assert("WhoIsCoordinator"@.len() != "Ack"@.len());
    assert("WhoIsCoordinator"@.len() != "ACK"@.len());
    assert("Ack"@[1] != "ACK"@[1]);
}

/// The message shapes that the hub knows, in the order in which a line is
/// tried against them. The first shape that decodes wins.
#[derive(Clone, Copy, Debug, PartialEq, Eq, Structural)]
pub enum Forma {
    MensajePing,
    MensajeEleccion,
    MensajeCoordinador,
    SolicitarRepartidor,
    SolicitarPedido,
    Posicion,
    MensajeIdentidad,
    FinalizarViaje,
    HandlePedido,
    RespuestaOfertaViaje,
    HacerPedido,
    ActualizarComensales,
    ActualizarRepartidores,
    ActualizarRestaurantes,
}

/// A message for the hub: a line that decoded as one of the known shapes,
/// or the gateway's answer.
#[derive(Debug, PartialEq, Eq)]
pub enum Entrante {
    MensajePing(MensajePing),
    MensajeEleccion(MensajeEleccion),
    MensajeCoordinador(MensajeCoordinador),
    SolicitarRepartidor(SolicitarRepartidor),
    SolicitarPedido(SolicitarPedido),
    Posicion(Posicion),
    MensajeIdentidad(MensajeIdentidad),
    FinalizarViaje(FinalizarViaje),
    HandlePedido(HandlePedido),
    RespuestaOfertaViaje(RespuestaOfertaViaje),
    HacerPedido(HacerPedido),
    ActualizarComensales(ActualizarComensales),
    ActualizarRepartidores(ActualizarRepartidores),
    ActualizarRestaurantes(ActualizarRestaurantes),
    /// The gateway's answer for an order that waited for it. It comes from
    /// no line: the caller hands it in once it has asked the gateway.
    Autorizacion(Autorizacion, PedidoAlRestaurante),
}

impl Entrante {
    /// The shape under which a message is decoded; the gateway's answer
    /// is decoded from no line and has none.
    pub open spec fn forma_spec(&self) -> Option<Forma> {
        match self {
            Entrante::MensajePing(_) => Some(Forma::MensajePing),
            Entrante::MensajeEleccion(_) => Some(Forma::MensajeEleccion),
            Entrante::MensajeCoordinador(_) => Some(Forma::MensajeCoordinador),
            Entrante::SolicitarRepartidor(_) => Some(Forma::SolicitarRepartidor),
            Entrante::SolicitarPedido(_) => Some(Forma::SolicitarPedido),
            Entrante::Posicion(_) => Some(Forma::Posicion),
            Entrante::MensajeIdentidad(_) => Some(Forma::MensajeIdentidad),
            Entrante::FinalizarViaje(_) => Some(Forma::FinalizarViaje),
            Entrante::HandlePedido(_) => Some(Forma::HandlePedido),
            Entrante::RespuestaOfertaViaje(_) => Some(Forma::RespuestaOfertaViaje),
            Entrante::HacerPedido(_) => Some(Forma::HacerPedido),
            Entrante::ActualizarComensales(_) => Some(Forma::ActualizarComensales),
            Entrante::ActualizarRepartidores(_) => Some(Forma::ActualizarRepartidores),
            Entrante::ActualizarRestaurantes(_) => Some(Forma::ActualizarRestaurantes),
            Entrante::Autorizacion(_, _) => None,
        }
    }

    /// Computes the shape of a message.
    #[verifier::when_used_as_spec(forma_spec)]
    pub fn forma(&self) -> (f: Option<Forma>)
        ensures
            f == self.forma_spec(),
    {
        match self {
            Entrante::MensajePing(_) => Some(Forma::MensajePing),
            Entrante::MensajeEleccion(_) => Some(Forma::MensajeEleccion),
            Entrante::MensajeCoordinador(_) => Some(Forma::MensajeCoordinador),
            Entrante::SolicitarRepartidor(_) => Some(Forma::SolicitarRepartidor),
            Entrante::SolicitarPedido(_) => Some(Forma::SolicitarPedido),
            Entrante::Posicion(_) => Some(Forma::Posicion),
            Entrante::MensajeIdentidad(_) => Some(Forma::MensajeIdentidad),
            Entrante::FinalizarViaje(_) => Some(Forma::FinalizarViaje),
            Entrante::HandlePedido(_) => Some(Forma::HandlePedido),
            Entrante::RespuestaOfertaViaje(_) => Some(Forma::RespuestaOfertaViaje),
            Entrante::HacerPedido(_) => Some(Forma::HacerPedido),
            Entrante::ActualizarComensales(_) => Some(Forma::ActualizarComensales),
            Entrante::ActualizarRepartidores(_) => Some(Forma::ActualizarRepartidores),
            Entrante::ActualizarRestaurantes(_) => Some(Forma::ActualizarRestaurantes),
            Entrante::Autorizacion(_, _) => None,
        }
    }
}

/// The control string that a line without its surrounding white space is,
/// if it is one.
pub open spec fn linea_control_spec(mensaje: Seq<char>) -> Option<LineaControl> {
    if mensaje == "WhoIsCoordinator"@ {
        Some(LineaControl::WhoIsCoordinator)
    } else if mensaje == "Ack"@ {
        Some(LineaControl::Ack)
    } else if mensaje == "ACK"@ {
        Some(LineaControl::AckFinal)
    } else {
        None
    }
}

/// Tells the control strings from the rest. `mensaje` is a line without
/// white space at its ends; whatever is no control string is left to the
/// JSON decoders.
pub fn linea_control(mensaje: &str) -> (r: Option<LineaControl>)
    ensures
        r == linea_control_spec(mensaje@),
{
    if iguales(mensaje, "WhoIsCoordinator") {
        Some(LineaControl::WhoIsCoordinator)
    } else if iguales(mensaje, "Ack") {
        Some(LineaControl::Ack)
    } else if iguales(mensaje, "ACK") {
        Some(LineaControl::AckFinal)
    } else {
        None
    }
}

/// Takes the white space off both ends of a line as it was read and tells
/// whether what is left is a control string.
pub fn clasificar_linea(linea: &str) -> (r: Option<LineaControl>)
    ensures
        r == linea_control_spec(recortada(linea@)),
{
    linea_control(recortar(linea))
}

/// A line as it is written: the payload and the terminator.
pub fn enmarcar(carga: &str) -> (r: String)
    ensures
        r@ == carga@ + "\n"@,
{
    let mut s = String::from_str(carga);
    s.append("\n");
    s
}

/// The known shapes, in the order in which a line is tried against them.
pub open spec fn formas_conocidas_spec() -> Seq<Forma> {
    seq![
        Forma::MensajePing,
        Forma::MensajeEleccion,
        Forma::MensajeCoordinador,
        Forma::SolicitarRepartidor,
        Forma::SolicitarPedido,
        Forma::Posicion,
        Forma::MensajeIdentidad,
        Forma::FinalizarViaje,
        Forma::HandlePedido,
        Forma::RespuestaOfertaViaje,
        Forma::HacerPedido,
        Forma::ActualizarComensales,
        Forma::ActualizarRepartidores,
        Forma::ActualizarRestaurantes,
    ]
}

/// Lists the known shapes in the order of their trial.
pub fn formas_conocidas() -> (r: Vec<Forma>)
    ensures
        r@ == formas_conocidas_spec(),
{
    let mut v: Vec<Forma> = Vec::new();
    v.push(Forma::MensajePing);
    v.push(Forma::MensajeEleccion);
    v.push(Forma::MensajeCoordinador);
    v.push(Forma::SolicitarRepartidor);
    v.push(Forma::SolicitarPedido);
    v.push(Forma::Posicion);
    v.push(Forma::MensajeIdentidad);
    v.push(Forma::FinalizarViaje);
    v.push(Forma::HandlePedido);
    v.push(Forma::RespuestaOfertaViaje);
    v.push(Forma::HacerPedido);
    v.push(Forma::ActualizarComensales);
    v.push(Forma::ActualizarRepartidores);
    v.push(Forma::ActualizarRestaurantes);
    assert(v@ =~= formas_conocidas_spec());
    v
}

/// Of the shapes that a line decodes as, the one that wins: the first in the
/// order of `formas_conocidas`. `decodifica[i]` says whether the line decodes
/// as the `i`-th shape.
pub fn primera_forma(decodifica: &Vec<bool>) -> (r: Option<Forma>)
    ensures
        match r {
            Some(f) => exists|i: int|
                {
                    &&& 0 <= i < decodifica.len()
                    &&& i < formas_conocidas_spec().len()
                    &&& #[trigger] decodifica[i]
                    &&& f == formas_conocidas_spec()[i]
                    &&& forall|j: int| 0 <= j < i ==> !decodifica[j]
                },
            None => forall|i: int|
                0 <= i < decodifica.len() && i < formas_conocidas_spec().len() ==> !decodifica[i],
        },
{
    let formas = formas_conocidas();
    let mut i: usize = 0;
    while i < formas.len() && i < decodifica.len()
        invariant
            formas@ == formas_conocidas_spec(),
            i <= formas.len(),
            i <= decodifica.len(),
            forall|j: int| 0 <= j < i ==> !decodifica[j],
        decreases formas.len() - i,
    {
        if decodifica[i] {
            return Some(formas[i]);
        }
        i = i + 1;
    }
    None
}

/// The delta that tells followers of a new diner.
pub open spec fn alta_comensal(d: Direccion, origen: Coordenadas, destino: Coordenadas) -> Delta {
    Delta::Comensales(ActualizarComensales { accion: Accion::Insertar, comensal: d, origen, destino })
}

/// The delta that tells followers to forget a diner.
pub open spec fn baja_comensal(d: Direccion) -> Delta {
    Delta::Comensales(
        ActualizarComensales {
            accion: Accion::Eliminar,
            comensal: d,
            origen: Coordenadas { x: 0, y: 0 },
            destino: Coordenadas { x: 0, y: 0 },
        },
    )
}

/// The delta that tells followers of a courier that announced itself.
pub open spec fn alta_repartidor(d: Direccion, posicion: Coordenadas) -> Delta {
    Delta::Repartidores(
        ActualizarRepartidores {
            accion: Accion::Insertar,
            repartidor: d,
            posicion,
            id_comensal_actual: None,
            status: EstadoRepartidor::Active,
        },
    )
}

/// The delta that tells followers of a courier's new state.
pub open spec fn cambio_repartidor(
    d: Direccion,
    posicion: Coordenadas,
    asignado: Option<Direccion>,
    estado: EstadoRepartidor,
) -> Delta {
    Delta::Repartidores(
        ActualizarRepartidores {
            accion: Accion::Actualizar,
            repartidor: d,
            posicion,
            id_comensal_actual: asignado,
            status: estado,
        },
    )
}

/// The delta that tells followers to forget a courier.
pub open spec fn baja_repartidor(d: Direccion) -> Delta {
    Delta::Repartidores(
        ActualizarRepartidores {
            accion: Accion::Eliminar,
            repartidor: d,
            posicion: Coordenadas { x: 0, y: 0 },
            id_comensal_actual: None,
            status: EstadoRepartidor::Active,
        },
    )
}

/// The delta that tells followers of a restaurant that announced itself.
pub open spec fn alta_restaurante(d: Direccion, posicion: Coordenadas) -> Delta {
    Delta::Restaurantes(
        ActualizarRestaurantes {
            accion: Accion::Insertar,
            restaurante: d,
            posicion,
            id_comensal_actual: None,
            status: EstadoRepartidor::Active,
        },
    )
}

/// What refusing the order of `comensal` does to the store and what it
/// sends: a diner that is stored is told once, if it can be written to, is
/// forgotten, and the followers are told to forget it. Of a diner that is
/// not stored nothing is said to anyone.
pub open spec fn rechazo(v: VistaAlmacenamiento, comensal: Direccion, motivo: MotivoRechazo) -> (
    VistaAlmacenamiento,
    Seq<Efecto>,
) {
    if v.comensales.contains_key(comensal) {
        let aviso = match v.comensales[comensal].enviador_comensal {
            Some(e) => seq![Efecto::Enviar(e, Linea::RechazarViaje(motivo))],
            None => Seq::<Efecto>::empty(),
        };
        (
            v.borrar_comensal(BorrarComensal { id: comensal }),
            aviso.push(Efecto::Difundir(baja_comensal(comensal))),
        )
    } else {
        (v, Seq::<Efecto>::empty())
    }
}

impl Server {
    /// What it takes to start a replica: a peer list that is not empty.
    pub fn start(addr: Direccion, peers: &Vec<Direccion>) -> (r: Result<(), ServidorError>)
        ensures
            peers.len() == 0 <==> r is Err,
            r matches Err(e) ==> (e matches ServidorError::InvalidSockets(texto) && texto@
                == "No hay peers"@),
    {
        if peers.len() == 0 {
            return Err(ServidorError::InvalidSockets(String::from_str("No hay peers")));
        }
        Ok(())
    }

    /// The session for a connection that the replica at `addr` accepted.
    pub fn new(client_addr: Direccion, addr: Direccion, tcp_enviador: Enviador) -> (r: Server)
        ensures
            r == (Server { addr, client_addr, tcp_enviador }),
    {
        Server { addr, client_addr, tcp_enviador }
    }

    /// What a decoded line does, by its shape, on the replica whose
    /// election state is `eleccion`. An election message, a leader
    /// announcement and a proposal are acknowledged before anything else is
    /// done with them.
    pub open spec fn handle_post(
        &self,
        v: VistaAlmacenamiento,
        eleccion: &EleccionCoordinador,
        msg: Entrante,
        origen: Coordenadas,
        ahora: Instante,
        w: VistaAlmacenamiento,
        efectos: Seq<Efecto>,
    ) -> bool {
        let lider = eleccion.id_coordinador;
        let soy_lider = eleccion.es_coordinador_spec();
        match msg {
            Entrante::MensajePing(m) => w == v && efectos == self.mensaje_ping_spec(m),
            Entrante::MensajeEleccion(m) => w == v && efectos == seq![
                Efecto::Enviar(self.tcp_enviador, Linea::Ack),
                Efecto::Eleccion(m),
            ],
            Entrante::MensajeCoordinador(m) => w == v && efectos == seq![
                Efecto::Enviar(self.tcp_enviador, Linea::Ack),
                Efecto::Coordinador(m),
            ],
            Entrante::SolicitarRepartidor(m) => (w, efectos) == Server::solicitar_repartidor_spec(
                v,
                m,
                soy_lider,
            ),
            Entrante::SolicitarPedido(m) => (w, efectos) == self.solicitar_pedido_spec(
                v,
                m,
                origen,
                soy_lider,
            ),
            Entrante::Posicion(m) => (w, efectos) == self.posicion_spec(v, m, soy_lider, ahora),
            Entrante::MensajeIdentidad(m) => (w, efectos) == self.mensaje_identidad_spec(
                v,
                m,
                soy_lider,
                ahora,
            ),
            Entrante::FinalizarViaje(m) => (w, efectos) == self.finalizar_viaje_spec(v, m, ahora),
            Entrante::HandlePedido(m) => self.handle_pedido_post(v, lider, m, ahora, w, efectos),
            Entrante::RespuestaOfertaViaje(m) => (w, efectos) == self.respuesta_oferta_viaje_spec(
                v,
                m,
                ahora,
            ),
            Entrante::HacerPedido(m) => w == Server::hacer_pedido_spec(v, m, ahora).0 && efectos
                == seq![Efecto::Enviar(self.tcp_enviador, Linea::Ack)] + Server::hacer_pedido_spec(
                v,
                m,
                ahora,
            ).1,
            Entrante::ActualizarComensales(m) => w == self.aplicar_delta_spec(
                v,
                Delta::Comensales(m),
                ahora,
            ) && efectos == Seq::<Efecto>::empty(),
            Entrante::ActualizarRepartidores(m) => w == self.aplicar_delta_spec(
                v,
                Delta::Repartidores(m),
                ahora,
            ) && efectos == Seq::<Efecto>::empty(),
            Entrante::ActualizarRestaurantes(m) => w == self.aplicar_delta_spec(
                v,
                Delta::Restaurantes(m),
                ahora,
            ) && efectos == Seq::<Efecto>::empty(),
            Entrante::Autorizacion(m, pedido) => Server::autorizacion_post(v, m, pedido, w, efectos),
        }
    }

    /// Handles a message of the hub, a decoded line or the gateway's
    /// answer: hands it to its handler and returns what that handler wants
    /// done.
    /// `origen` is a point of the map drawn for this line, `ahora` the
    /// time at which it came in.
    pub fn handle(
        &self,
        msg: Entrante,
        eleccion: &EleccionCoordinador,
        almacenamiento: &mut Almacenamiento,
        origen: Coordenadas,
        ahora: Instante,
    ) -> (r: Vec<Efecto>)
        ensures
            final(almacenamiento)@.bien_formada(),
            self.handle_post(
                old(almacenamiento)@,
                eleccion,
                msg,
                origen,
                ahora,
                final(almacenamiento)@,
                r@,
            ),
    {
        proof {
            use_type_invariant(&*almacenamiento);
            lema_vista_bien_formada(*almacenamiento);
        }
        match msg {
            Entrante::MensajePing(m) => self.mensaje_ping(m),
            Entrante::MensajeEleccion(m) => {
                let mut efectos: Vec<Efecto> = Vec::new();
                efectos.push(Efecto::Enviar(self.tcp_enviador, Linea::Ack));
                efectos.push(Efecto::Eleccion(m));
                assert(efectos@ =~= seq![
                    Efecto::Enviar(self.tcp_enviador, Linea::Ack),
                    Efecto::Eleccion(m),
                ]);
                efectos
            },
            Entrante::MensajeCoordinador(m) => {
                let mut efectos: Vec<Efecto> = Vec::new();
                efectos.push(Efecto::Enviar(self.tcp_enviador, Linea::Ack));
                efectos.push(Efecto::Coordinador(m));
                assert(efectos@ =~= seq![
                    Efecto::Enviar(self.tcp_enviador, Linea::Ack),
                    Efecto::Coordinador(m),
                ]);
                efectos
            },
            Entrante::SolicitarRepartidor(m) => self.solicitar_repartidor(m, eleccion, almacenamiento),
            Entrante::SolicitarPedido(m) => self.solicitar_pedido(m, origen, eleccion, almacenamiento),
            Entrante::Posicion(m) => self.posicion(m, eleccion, almacenamiento, ahora),
            Entrante::MensajeIdentidad(m) => self.mensaje_identidad(
                m,
                eleccion,
                almacenamiento,
                ahora,
            ),
            Entrante::FinalizarViaje(m) => self.finalizar_viaje(m, almacenamiento, ahora),
            Entrante::HandlePedido(m) => self.handle_pedido(m, eleccion, almacenamiento, ahora),
            Entrante::RespuestaOfertaViaje(m) => self.respuesta_oferta_viaje(
                m,
                almacenamiento,
                ahora,
            ),
            Entrante::HacerPedido(m) => {
                let mut efectos: Vec<Efecto> = Vec::new();
                efectos.push(Efecto::Enviar(self.tcp_enviador, Linea::Ack));
                let mut resto = self.hacer_pedido(m, almacenamiento, ahora);
                let ghost r0 = resto@;
                efectos.append(&mut resto);
                assert(efectos@ =~= seq![Efecto::Enviar(self.tcp_enviador, Linea::Ack)] + r0);
                efectos
            },
            Entrante::ActualizarComensales(m) => {
                self.aplicar_delta(Delta::Comensales(m), almacenamiento, ahora);
                let efectos: Vec<Efecto> = Vec::new();
                assert(efectos@ =~= Seq::<Efecto>::empty());
                efectos
            },
            Entrante::ActualizarRepartidores(m) => {
                self.aplicar_delta(Delta::Repartidores(m), almacenamiento, ahora);
                let efectos: Vec<Efecto> = Vec::new();
                assert(efectos@ =~= Seq::<Efecto>::empty());
                efectos
            },
            Entrante::ActualizarRestaurantes(m) => {
                self.aplicar_delta(Delta::Restaurantes(m), almacenamiento, ahora);
                let efectos: Vec<Efecto> = Vec::new();
                assert(efectos@ =~= Seq::<Efecto>::empty());
                efectos
            },
            Entrante::Autorizacion(m, pedido) => self.autorizacion(m, pedido, almacenamiento),
        }
    }

    /// Refuses the order of a diner, for good.
    pub fn rechazar_pasajero(
        comensal: Direccion,
        almacenamiento: &mut Almacenamiento,
        motivo: MotivoRechazo,
    ) -> (r: Vec<Efecto>)
        ensures
            final(almacenamiento)@.bien_formada(),
            (final(almacenamiento)@, r@) == rechazo(old(almacenamiento)@, comensal, motivo),
    {
        let mut efectos: Vec<Efecto> = Vec::new();
        match almacenamiento.obtener_comensal(ObtenerComensal { id: comensal }) {
            Some(c) => {
                if let Some(e) = c.enviador_comensal {
                    efectos.push(Efecto::Enviar(e, Linea::RechazarViaje(motivo)));
                }
                almacenamiento.borrar_comensal(BorrarComensal { id: comensal });
                efectos.push(
                    Efecto::Difundir(
                        Delta::Comensales(
                            ActualizarComensales {
                                accion: Accion::Eliminar,
                                comensal,
                                origen: Coordenadas { x: 0, y: 0 },
                                destino: Coordenadas { x: 0, y: 0 },
                            },
                        ),
                    ),
                );
            },
            None => {},
        }
        efectos
    }
}

} // verus!
