use crate::eleccion::anillo::Anillo;
use crate::eleccion::mensajes_eleccion::{
    AsignarDireccionLider, IniciarEleccion, MensajeCoordinador, MensajeEleccion, MensajePing,
    ObtenerDireccionCoordinador, ObtenerDireccionLider, PingCoordinador, SoyCoordinador,
};
use crate::eleccion::recorrido::{Intento, Recorrido};
use crate::common::mensajes::QuienEsCoordinador;
use crate::direccion::Direccion;
use crate::utils::constantes::{MAX_PEER_PORT, MAX_REINTENTOS, MIN_PEER_PORT};
use vstd::prelude::*;

verus! {

/// What one replica believes about leadership.
#[derive(Debug)]
pub struct EleccionCoordinador {
    pub id: Direccion,
    pub id_coordinador: Option<Direccion>,
    pub peers: Vec<Direccion>,
    pub en_eleccion: bool,
    pub anillo: Anillo,
}

/// What a replica does with an election message that reached it.
#[derive(Debug, PartialEq, Eq)]
pub enum PasoEleccion {
    /// Another election is under way here: the message is dropped.
    Ignorar,
    /// The replica added itself and hands the message to its successor.
    Reenviar(MensajeEleccion),
    /// The ring has closed: the leader is known and is announced to all.
    Proclamar(MensajeCoordinador),
}

/// What comes next while an election message looks for a taker.
#[derive(Debug, PartialEq, Eq)]
pub enum PasoEnvio {
    /// Offer the message to this replica.
    Intentar(Direccion),
    /// A replica took the message: the election goes on from there.
    Entregado,
    /// No replica took the message: the election is settled on the
    /// candidates it had gathered, and this is announced.
    Proclamar(MensajeCoordinador),
    /// No replica took the message and it held no candidate: nothing is
    /// settled.
    Nada,
}

/// What comes next while the leader is probed.
#[derive(Debug, PartialEq, Eq)]
pub enum PasoPing {
    /// Send this probe to the leader at this address.
    Intentar(Direccion, MensajePing),
    /// The leader answered the probe.
    Vivo,
    /// The leader stayed silent through all attempts: an election starts.
    Eleccion(MensajeEleccion),
    /// The leader stayed silent, but an election is under way already.
    Nada,
}

/// What comes next while the leader is announced to the peers.
#[derive(Debug, PartialEq, Eq)]
pub enum PasoAnuncio {
    /// Announce the leader to this peer.
    Intentar(Direccion),
    /// Every peer has had its turn, and the leader is this replica: it
    /// takes up coordination.
    Coordinar,
    /// Every peer has had its turn, and another replica leads.
    Nada,
}

/// What a peer answered to "who is coordinator".
#[derive(Clone, Copy, Debug, PartialEq, Eq)]
pub enum RespuestaConsulta {
    /// The peer named the leader it believes in.
    Lider(QuienEsCoordinador),
    /// The peer answered, and knows no leader.
    SinLider,
    /// No usable answer came: refused, timed out, or not understood.
    Nada,
}

/// What follows an answer to "who is coordinator".
#[derive(Debug, PartialEq, Eq)]
pub enum PasoConsulta {
    /// Ask this peer next.
    Preguntar(Direccion),
    /// A leader was learnt and adopted; the flag says whether it is this
    /// replica itself.
    Adoptado(bool),
    /// Nobody named a leader: this replica starts an election with itself
    /// as the only candidate.
    Eleccion(MensajeEleccion),
}

/// `d` is the candidate that an election over `c` picks: the one with the
/// lowest port, and among several with that port the first.
pub open spec fn es_elegido(c: Seq<Direccion>, d: Direccion) -> bool {
    exists|i: int|
        {
            &&& 0 <= i < c.len()
            &&& #[trigger] c[i] == d
            &&& forall|j: int| 0 <= j < c.len() ==> d.puerto <= (#[trigger] c[j]).puerto
            &&& forall|j: int| 0 <= j < i ==> d.puerto < (#[trigger] c[j]).puerto
        }
}

/// The peers of a replica, without the replica itself.
pub open spec fn otros(peers: Seq<Direccion>, id: Direccion) -> Seq<Direccion> {
    peers.filter(distinto_de(id))
}

/// The test that every address but `id` passes.
pub open spec fn distinto_de(id: Direccion) -> spec_fn(Direccion) -> bool {
    |p: Direccion| p != id
}

/// Whether `d` occurs in `v`.
pub fn contiene(v: &Vec<Direccion>, d: Direccion) -> (r: bool)
    ensures
        r == v@.contains(d),
{
    let mut i: usize = 0;
    while i < v.len()
        invariant
            i <= v.len(),
            forall|j: int| 0 <= j < i ==> v[j] != d,
        decreases v.len() - i,
    {
        if v[i] == d {
            return true;
        }
        i = i + 1;
    }
    false
}

/// The candidate with the lowest port, the first of them where several
/// share it; `None` iff there is no candidate.
pub fn elegir_coordinador(candidatos: &Vec<Direccion>) -> (r: Option<Direccion>)
    ensures
        candidatos.len() == 0 <==> r is None,
        r matches Some(d) ==> es_elegido(candidatos@, d),
{
    if candidatos.len() == 0 {
        return None;
    }
    let mut mejor: usize = 0;
    let mut i: usize = 1;
    while i < candidatos.len()
        invariant
            0 <= mejor < i <= candidatos.len(),
            forall|j: int| 0 <= j < i ==> candidatos[mejor as int].puerto <= candidatos[j].puerto,
            forall|j: int| 0 <= j < mejor ==> candidatos[mejor as int].puerto < candidatos[j].puerto,
        decreases candidatos.len() - i,
    {
        if candidatos[i].puerto < candidatos[mejor].puerto {
            mejor = i;
        }
        i = i + 1;
    }
    let d = candidatos[mejor];
    assert(candidatos@[mejor as int] == d);
    Some(d)
}

impl EleccionCoordinador {
    /// The rest of the state is the same in both.
    pub open spec fn mismo_entorno(self, otro: EleccionCoordinador) -> bool {
        self.id == otro.id && self.peers == otro.peers && self.anillo == otro.anillo
    }

    /// A replica that has just started: it knows no leader and runs no
    /// election.
    pub fn new(id: Direccion, peers: Vec<Direccion>) -> (r: EleccionCoordinador)
        ensures
            r.id == id,
            r.peers == peers,
            r.id_coordinador is None,
            !r.en_eleccion,
            r.anillo.min() == MIN_PEER_PORT,
            r.anillo.max() == MAX_PEER_PORT,
    {
        EleccionCoordinador {
            id,
            id_coordinador: None,
            peers,
            en_eleccion: false,
            anillo: Anillo::por_defecto(),
        }
    }

    /// The same, on a ring other than the well-known one.
    pub fn con_anillo(
        id: Direccion,
        peers: Vec<Direccion>,
        anillo: Anillo,
    ) -> (r: EleccionCoordinador)
        ensures
            r.id == id,
            r.peers == peers,
            r.id_coordinador is None,
            !r.en_eleccion,
            r.anillo == anillo,
    {
        EleccionCoordinador { id, id_coordinador: None, peers, en_eleccion: false, anillo }
    }

    /// Sets the leader that this replica believes in.
    pub fn asignar_direccion_lider(&mut self, msg: AsignarDireccionLider)
        ensures
            final(self).id_coordinador == Some(msg.id_coordinador),
            final(self).en_eleccion == old(self).en_eleccion,
            final(self).mismo_entorno(*old(self)),
    {
        self.id_coordinador = Some(msg.id_coordinador);
    }

    /// The leader that this replica believes in, if any.
    pub fn obtener_direccion_coordinador(&self, _msg: ObtenerDireccionCoordinador) -> (r: Option<
        Direccion,
    >)
        ensures
            r == self.id_coordinador,
    {
        self.id_coordinador
    }

    /// The leader that this replica believes in, if any.
    pub fn obtener_direccion_lider(&self, _msg: ObtenerDireccionLider) -> (r: Option<Direccion>)
        ensures
            r == self.id_coordinador,
    {
        self.id_coordinador
    }

    /// A replica is leader iff the leader it believes in is itself.
    pub open spec fn es_coordinador_spec(&self) -> bool {
        self.id_coordinador == Some(self.id)
    }

    /// Whether this replica takes itself for the leader.
    #[verifier::when_used_as_spec(es_coordinador_spec)]
    pub fn es_coordinador(&self) -> (r: bool)
        ensures
            r == self.es_coordinador_spec(),
    {
        match self.id_coordinador {
            Some(c) => c == self.id,
            None => false,
        }
    }

    /// Answers whether this replica takes itself for the leader.
    pub fn soy_coordinador(&self, _msg: SoyCoordinador) -> (r: bool)
        ensures
            r == self.es_coordinador_spec(),
    {
        self.es_coordinador()
    }

    /// Starts an election with this replica as its only candidate.
    pub fn iniciar_eleccion(&mut self) -> (r: MensajeEleccion)
        ensures
            r.candidatos@ == seq![old(self).id],
            final(self).en_eleccion,
            final(self).id_coordinador == old(self).id_coordinador,
            final(self).mismo_entorno(*old(self)),
    {
        self.en_eleccion = true;
        let mut candidatos: Vec<Direccion> = Vec::new();
        candidatos.push(self.id);
        MensajeEleccion { candidatos }
    }

    /// Starts an election unless one is under way here.
    pub fn handle_iniciar_eleccion(&mut self, _msg: IniciarEleccion) -> (r: Option<MensajeEleccion>)
        ensures
            old(self).en_eleccion ==> r is None && *final(self) == *old(self),
            !old(self).en_eleccion ==> {
                &&& r matches Some(m)
                &&& m.candidatos@ == seq![old(self).id]
                &&& final(self).en_eleccion
                &&& final(self).id_coordinador == old(self).id_coordinador
                &&& final(self).mismo_entorno(*old(self))
            },
    {
        if self.en_eleccion {
            None
        } else {
            Some(self.iniciar_eleccion())
        }
    }

    /// Handles an election message. A list that holds this replica has been
    /// round the ring: its lowest port is the leader. Otherwise the replica
    /// joins the list and passes it on, unless it is in an election already.
    pub fn handle_election(&mut self, msg: MensajeEleccion) -> (r: PasoEleccion)
        ensures
            final(self).mismo_entorno(*old(self)),
            msg.candidatos@.contains(old(self).id) ==> {
                &&& r matches PasoEleccion::Proclamar(m)
                &&& es_elegido(msg.candidatos@, m.coordinador)
                &&& final(self).id_coordinador == Some(m.coordinador)
                &&& !final(self).en_eleccion
            },
            !msg.candidatos@.contains(old(self).id) && old(self).en_eleccion ==> {
                &&& r is Ignorar
                &&& *final(self) == *old(self)
            },
            !msg.candidatos@.contains(old(self).id) && !old(self).en_eleccion ==> {
                &&& r matches PasoEleccion::Reenviar(m)
                &&& m.candidatos@ == msg.candidatos@.push(old(self).id)
                &&& final(self).en_eleccion
                &&& final(self).id_coordinador == old(self).id_coordinador
            },
    {
        let cerrado = contiene(&msg.candidatos, self.id);
        if self.en_eleccion && !cerrado {
            return PasoEleccion::Ignorar;
        }
        if cerrado {
            match self.manejar_nuevo_coordinador(&msg.candidatos) {
                Some(m) => PasoEleccion::Proclamar(m),
                None => PasoEleccion::Ignorar,
            }
        } else {
            self.en_eleccion = true;
            let mut candidatos = msg.candidatos;
            candidatos.push(self.id);
            PasoEleccion::Reenviar(MensajeEleccion { candidatos })
        }
    }

    /// The replicas to which an election message from here is offered, in
    /// ring order, each with its attempts.
    pub fn enviar_mensaje_eleccion(&self) -> (r: Recorrido)
        ensures
            r.destinos() == self.anillo.destinos_spec(self.id),
            r.indice() == 0,
            r.intentos() == 0,
    {
        Recorrido::new(self.anillo.destinos(self.id))
    }

    /// `r` is the step that the walk `envio` of the election message
    /// `mensaje` asks for, and `despues` the replica after it: the replica
    /// to offer the message to, or, once the walk is spent, the settling of
    /// the election on the candidates of the message.
    pub open spec fn tras_envio(
        &self,
        envio: &Recorrido,
        mensaje: &MensajeEleccion,
        r: PasoEnvio,
        despues: &EleccionCoordinador,
    ) -> bool {
        &&& despues.mismo_entorno(*self)
        &&& match envio.objetivo_spec() {
            Some(d) => r == PasoEnvio::Intentar(d) && *despues == *self,
            None => if mensaje.candidatos.len() == 0 {
                r == PasoEnvio::Nada && *despues == *self
            } else {
                &&& r matches PasoEnvio::Proclamar(m)
                &&& es_elegido(mensaje.candidatos@, m.coordinador)
                &&& despues.id_coordinador == Some(m.coordinador)
                &&& !despues.en_eleccion
            },
        }
    }

    /// The next step of handing an election message round the ring, after
    /// every attempt so far has failed: the replica to offer it to next, or,
    /// once the walk is spent, the settling of the election on the
    /// candidates of the message.
    pub fn paso_de_envio(&mut self, envio: &Recorrido, mensaje: &MensajeEleccion) -> (r: PasoEnvio)
        ensures
            old(self).tras_envio(envio, mensaje, r, final(self)),
    {
        match envio.objetivo() {
            Some(d) => PasoEnvio::Intentar(d),
            None => match self.manejar_nuevo_coordinador(&mensaje.candidatos) {
                Some(m) => PasoEnvio::Proclamar(m),
                None => PasoEnvio::Nada,
            },
        }
    }

    /// Takes the outcome of offering the election message to the replica of
    /// the walk. A replica that answers with a line has taken the message.
    /// Every other outcome counts as a failed attempt, whether the
    /// connection, the writing or the answer failed: the replica is tried
    /// again while it has attempts, then the next one of the ring, and
    /// after the last one the election is settled here.
    pub fn respuesta_de_envio(
        &mut self,
        envio: &mut Recorrido,
        mensaje: &MensajeEleccion,
        intento: &Intento,
    ) -> (r: PasoEnvio)
        ensures
            intento is Respuesta ==> {
                &&& r == PasoEnvio::Entregado
                &&& *final(self) == *old(self)
                &&& *final(envio) == *old(envio)
            },
            !(intento is Respuesta) ==> {
                &&& old(envio).tras_fallo(final(envio))
                &&& old(self).tras_envio(final(envio), mensaje, r, final(self))
            },
    {
        match intento {
            Intento::Respuesta(_) => PasoEnvio::Entregado,
            _ => {
                envio.registrar_fallo();
                self.paso_de_envio(envio, mensaje)
            },
        }
    }

    /// The probe that this replica sends to the leader: it names the
    /// replica itself as the sender.
    pub fn mensaje_de_ping(&self) -> (r: MensajePing)
        ensures
            r == (MensajePing { id_enviador: self.id }),
    {
        MensajePing { id_enviador: self.id }
    }

    /// `r` is the step that the walk `ping` of a probe asks for, and
    /// `despues` the replica after it: the probe to send and where, or,
    /// once the walk is spent, what the silence of the leader leads to.
    pub open spec fn tras_ping(
        &self,
        ping: &Recorrido,
        r: PasoPing,
        despues: &EleccionCoordinador,
    ) -> bool {
        &&& despues.mismo_entorno(*self)
        &&& match ping.objetivo_spec() {
            Some(d) => r == PasoPing::Intentar(d, MensajePing { id_enviador: self.id })
                && *despues == *self,
            None => if self.en_eleccion {
                r == PasoPing::Nada && *despues == *self
            } else {
                &&& r matches PasoPing::Eleccion(m)
                &&& m.candidatos@ == seq![self.id]
                &&& despues.en_eleccion
                &&& despues.id_coordinador == self.id_coordinador
            },
        }
    }

    /// The next step of probing the leader, after every attempt so far has
    /// failed: the probe to send and the address to send it to, or, once
    /// the walk is spent, what the silence of the leader leads to.
    pub fn paso_de_ping(&mut self, ping: &Recorrido) -> (r: PasoPing)
        ensures
            old(self).tras_ping(ping, r, final(self)),
    {
        match ping.objetivo() {
            Some(d) => PasoPing::Intentar(d, self.mensaje_de_ping()),
            None => match self.coordinador_caido() {
                Some(m) => PasoPing::Eleccion(m),
                None => PasoPing::Nada,
            },
        }
    }

    /// Takes the outcome of one probe. A leader that answers with a line is
    /// alive, and the probing ends. Every other outcome counts as a failed
    /// attempt, whether the connection, the writing or the answer failed:
    /// the leader is probed again while it has attempts, and after the last
    /// one an election starts, unless one is under way.
    pub fn respuesta_de_ping(&mut self, ping: &mut Recorrido, intento: &Intento) -> (r: PasoPing)
        ensures
            intento is Respuesta ==> {
                &&& r == PasoPing::Vivo
                &&& *final(self) == *old(self)
                &&& *final(ping) == *old(ping)
            },
            !(intento is Respuesta) ==> {
                &&& old(ping).tras_fallo(final(ping))
                &&& old(self).tras_ping(final(ping), r, final(self))
            },
    {
        match intento {
            Intento::Respuesta(_) => PasoPing::Vivo,
            _ => {
                ping.registrar_fallo();
                self.paso_de_ping(ping)
            },
        }
    }

    /// The step that the walk `anuncio` of a leader announcement asks for:
    /// the peer to announce to, or, once every peer has had its turn,
    /// whether this replica takes up coordination.
    pub open spec fn paso_de_anuncio_spec(&self, anuncio: &Recorrido) -> PasoAnuncio {
        match anuncio.objetivo_spec() {
            Some(d) => PasoAnuncio::Intentar(d),
            None => if self.es_coordinador_spec() {
                PasoAnuncio::Coordinar
            } else {
                PasoAnuncio::Nada
            },
        }
    }

    /// The next step of announcing the leader to the peers.
    pub fn paso_de_anuncio(&self, anuncio: &Recorrido) -> (r: PasoAnuncio)
        ensures
            r == self.paso_de_anuncio_spec(anuncio),
    {
        match anuncio.objetivo() {
            Some(d) => PasoAnuncio::Intentar(d),
            None => if self.es_coordinador() {
                PasoAnuncio::Coordinar
            } else {
                PasoAnuncio::Nada
            },
        }
    }

    /// Takes the outcome of announcing the leader to the peer of the walk.
    /// No answer is awaited: a peer that could be connected to has had its
    /// turn, whether or not the line could be written. A peer that could
    /// not be connected to is tried again while it has attempts.
    pub fn respuesta_de_anuncio(&self, anuncio: &mut Recorrido, intento: &Intento) -> (r:
        PasoAnuncio)
        ensures
            intento is SinConexion ==> old(anuncio).tras_fallo(final(anuncio)),
            !(intento is SinConexion) ==> old(anuncio).tras_pasar(final(anuncio)),
            r == self.paso_de_anuncio_spec(final(anuncio)),
    {
        match intento {
            Intento::SinConexion => {
                anuncio.registrar_fallo();
            },
            _ => {
                anuncio.pasar_al_siguiente();
            },
        }
        self.paso_de_anuncio(anuncio)
    }

    /// Settles an election on its candidates: the lowest port leads. The
    /// replica adopts the result; the message returned is what it announces.
    /// Without candidates nothing is settled.
    pub fn manejar_nuevo_coordinador(&mut self, candidatos: &Vec<Direccion>) -> (r: Option<
        MensajeCoordinador,
    >)
        ensures
            final(self).mismo_entorno(*old(self)),
            candidatos.len() == 0 <==> r is None,
            r is None ==> *final(self) == *old(self),
            r matches Some(m) ==> {
                &&& es_elegido(candidatos@, m.coordinador)
                &&& final(self).id_coordinador == Some(m.coordinador)
                &&& !final(self).en_eleccion
            },
    {
        match elegir_coordinador(candidatos) {
            Some(coordinador) => {
                let msg = MensajeCoordinador { coordinador };
                self.recibir_mensaje_coordinador(msg);
                Some(msg)
            },
            None => None,
        }
    }

    /// Adopts an announced leader and ends the election here. Returns
    /// whether the leader is this replica, which then takes up coordination.
    pub fn recibir_mensaje_coordinador(&mut self, msg: MensajeCoordinador) -> (r: bool)
        ensures
            final(self).mismo_entorno(*old(self)),
            final(self).id_coordinador == Some(msg.coordinador),
            !final(self).en_eleccion,
            r == (msg.coordinador == old(self).id),
            r == final(self).es_coordinador_spec(),
    {
        self.id_coordinador = Some(msg.coordinador);
        self.en_eleccion = false;
        self.es_coordinador()
    }

    /// The peers other than this replica, in the order of the peer list.
    pub fn otros_peers(&self) -> (r: Vec<Direccion>)
        ensures
            r@ == otros(self.peers@, self.id),
    {
        sin(&self.peers, self.id)
    }

    /// The peers to which a leader announcement goes, each with its
    /// attempts.
    pub fn broadcast_coordinador(&self) -> (r: Recorrido)
        ensures
            r.destinos() == otros(self.peers@, self.id),
            r.indice() == 0,
            r.intentos() == 0,
    {
        Recorrido::new(self.otros_peers())
    }

    /// What to send and whom to probe at a tick of the liveness timer: the
    /// probe with this replica's own address, to the leader, with its
    /// attempts. Nobody is probed where this replica is the leader, is in
    /// an election, or knows no leader.
    pub fn ping_coordinador(&self, _msg: PingCoordinador) -> (r: Option<(MensajePing, Recorrido)>)
        ensures
            (self.es_coordinador_spec() || self.en_eleccion || self.id_coordinador is None)
                <==> r is None,
            r matches Some(p) ==> {
                &&& p.0 == (MensajePing { id_enviador: self.id })
                &&& p.1.destinos() == seq![self.id_coordinador->0]
                &&& p.1.indice() == 0
                &&& p.1.intentos() == 0
            },
    {
        if self.es_coordinador() || self.en_eleccion {
            return None;
        }
        match self.id_coordinador {
            Some(coord) => {
                let mut destinos: Vec<Direccion> = Vec::new();
                destinos.push(coord);
                Some((self.mensaje_de_ping(), Recorrido::new(destinos)))
            },
            None => None,
        }
    }

    /// What the silence of the leader leads to: an election, unless one is
    /// under way here.
    pub fn coordinador_caido(&mut self) -> (r: Option<MensajeEleccion>)
        ensures
            old(self).en_eleccion ==> r is None && *final(self) == *old(self),
            !old(self).en_eleccion ==> {
                &&& r matches Some(m)
                &&& m.candidatos@ == seq![old(self).id]
                &&& final(self).en_eleccion
                &&& final(self).id_coordinador == old(self).id_coordinador
                &&& final(self).mismo_entorno(*old(self))
            },
    {
        self.handle_iniciar_eleccion(IniciarEleccion)
    }

    /// Whom a replica asks for the leader when it starts: its peers, in
    /// order; nobody where it is leader or in an election already.
    pub fn preguntar_quien_coordina(&self) -> (r: Option<Recorrido>)
        ensures
            (self.es_coordinador_spec() || self.en_eleccion) <==> r is None,
            r matches Some(w) ==> {
                &&& w.destinos() == otros(self.peers@, self.id)
                &&& w.indice() == 0
                &&& w.intentos() == 0
            },
    {
        if self.en_eleccion || self.es_coordinador() {
            None
        } else {
            Some(Recorrido::new(self.otros_peers()))
        }
    }

    /// Takes the answer of the peer that was asked. A named leader is
    /// adopted. A peer that knows none is left for the next; one that does
    /// not answer is asked again while it has attempts. When no peer is
    /// left, this replica starts an election.
    pub fn respuesta_quien_coordina(
        &mut self,
        consulta: &mut Recorrido,
        respuesta: RespuestaConsulta,
    ) -> (r: PasoConsulta)
        ensures
            final(self).mismo_entorno(*old(self)),
            respuesta matches RespuestaConsulta::Lider(q) ==> {
                &&& r == PasoConsulta::Adoptado(q.direccion_coordinador == old(self).id)
                &&& final(self).id_coordinador == Some(q.direccion_coordinador)
                &&& !final(self).en_eleccion
                &&& *final(consulta) == *old(consulta)
            },
            respuesta is SinLider ==> old(consulta).tras_pasar(final(consulta)),
            respuesta is Nada ==> old(consulta).tras_fallo(final(consulta)),
            !(respuesta is Lider) && old(consulta).objetivo_spec() is Some
                ==> final(consulta).restantes() < old(consulta).restantes(),
            !(respuesta is Lider) ==> match final(consulta).objetivo_spec() {
                Some(d) => r == PasoConsulta::Preguntar(d) && *final(self) == *old(self),
                None => {
                    &&& r matches PasoConsulta::Eleccion(m)
                    &&& m.candidatos@ == seq![old(self).id]
                    &&& final(self).id_coordinador == old(self).id_coordinador
                    &&& final(self).en_eleccion
                },
            },
    {
        match respuesta {
            RespuestaConsulta::Lider(q) => {
                let soy = self.recibir_mensaje_coordinador(
                    MensajeCoordinador { coordinador: q.direccion_coordinador },
                );
                return PasoConsulta::Adoptado(soy);
            },
            RespuestaConsulta::SinLider => {
                consulta.pasar_al_siguiente();
            },
            RespuestaConsulta::Nada => {
                consulta.registrar_fallo();
            },
        }
        match consulta.objetivo() {
            Some(d) => PasoConsulta::Preguntar(d),
            None => PasoConsulta::Eleccion(self.iniciar_eleccion()),
        }
    }
}

/// The addresses of `peers` other than `id`, in their order.
pub fn sin(peers: &Vec<Direccion>, id: Direccion) -> (r: Vec<Direccion>)
    ensures
        r@ == otros(peers@, id),
{
    let mut v: Vec<Direccion> = Vec::new();
    let mut i: usize = 0;
    let ghost pred = distinto_de(id);
    proof {
        assert(peers@.take(0) =~= Seq::empty());
    }
    while i < peers.len()
        invariant
            i <= peers.len(),
            pred == distinto_de(id),
            v@ == peers@.take(i as int).filter(pred),
        decreases peers.len() - i,
    {
        let p = peers[i];
        proof {
            let antes = peers@.take(i as int);
            assert(peers@.take(i + 1) =~= antes.push(p));
            lema_filter_push(antes, p, pred);
        }
        if p != id {
            v.push(p);
        }
        i = i + 1;
    }
    proof {
        assert(peers@.take(i as int) =~= peers@);
    }
    v
}

/// Filtering a sequence with one more item filters the item too.
proof fn lema_filter_push(s: Seq<Direccion>, x: Direccion, pred: spec_fn(Direccion) -> bool)
    ensures
        s.push(x).filter(pred) == if pred(x) {
            s.filter(pred).push(x)
        } else {
            s.filter(pred)
        },
{
    reveal(Seq::filter);
    assert(s.push(x).drop_last() =~= s);
}

/// An election has one outcome: two candidates that both pass for the
/// elected one are the same.
pub proof fn ley_elegido_unico(c: Seq<Direccion>, d: Direccion, e: Direccion)
    requires
        es_elegido(c, d),
        es_elegido(c, e),
    ensures
        d == e,
{
    let i = choose|i: int|
        {
            &&& 0 <= i < c.len()
            &&& #[trigger] c[i] == d
            &&& forall|j: int| 0 <= j < c.len() ==> d.puerto <= (#[trigger] c[j]).puerto
            &&& forall|j: int| 0 <= j < i ==> d.puerto < (#[trigger] c[j]).puerto
        };
    let k = choose|k: int|
        {
            &&& 0 <= k < c.len()
            &&& #[trigger] c[k] == e
            &&& forall|j: int| 0 <= j < c.len() ==> e.puerto <= (#[trigger] c[j]).puerto
            &&& forall|j: int| 0 <= j < k ==> e.puerto < (#[trigger] c[j]).puerto
        };
    if i < k {
        assert(e.puerto < c[i].puerto);
        assert(d.puerto <= c[k].puerto);
    }
    if k < i {
        assert(d.puerto < c[k].puerto);
        assert(e.puerto <= c[i].puerto);
    }
}

/// The elected candidate has the lowest port of all.
pub proof fn ley_elegido_minimo(c: Seq<Direccion>, d: Direccion, otro: Direccion)
    requires
        es_elegido(c, d),
        c.contains(otro),
    ensures
        c.contains(d),
        d.puerto <= otro.puerto,
{
    let i = choose|i: int|
        {
            &&& 0 <= i < c.len()
            &&& #[trigger] c[i] == d
            &&& forall|j: int| 0 <= j < c.len() ==> d.puerto <= (#[trigger] c[j]).puerto
            &&& forall|j: int| 0 <= j < i ==> d.puerto < (#[trigger] c[j]).puerto
        };
    let j = choose|j: int| 0 <= j < c.len() && c[j] == otro;
    assert(d.puerto <= c[j].puerto);
}

/// Two elections over the same candidates elect the same leader, in
/// whatever order each of them gathered the candidates, as long as no two
/// candidates share a port. So elections that different replicas started
/// at the same time, and that went round the same replicas, agree.
pub proof fn ley_elecciones_concurrentes(
    c1: Seq<Direccion>,
    c2: Seq<Direccion>,
    d1: Direccion,
    d2: Direccion,
)
    requires
        forall|x: Direccion| c1.contains(x) <==> c2.contains(x),
        forall|x: Direccion, y: Direccion|
            c1.contains(x) && c1.contains(y) && x.puerto == y.puerto ==> x == y,
        es_elegido(c1, d1),
        es_elegido(c2, d2),
    ensures
        d1 == d2,
{
    ley_elegido_minimo(c1, d1, d1);
    ley_elegido_minimo(c2, d2, d2);
    ley_elegido_minimo(c1, d1, d2);
    ley_elegido_minimo(c2, d2, d1);
}

/// Among replicas with distinct addresses that all believe in the same
/// leader, which is one of them, exactly one takes itself for the leader.
pub proof fn ley_un_solo_lider(replicas: Seq<EleccionCoordinador>, lider: Direccion)
    requires
        forall|i: int, j: int|
            0 <= i < j < replicas.len() ==> replicas[i].id != replicas[j].id,
        forall|i: int| 0 <= i < replicas.len() ==> (#[trigger] replicas[i]).id_coordinador == Some(lider),
        exists|i: int| 0 <= i < replicas.len() && (#[trigger] replicas[i]).id == lider,
    ensures
        exists|i: int|
            {
                &&& 0 <= i < replicas.len()
                &&& (#[trigger] replicas[i]).es_coordinador_spec()
                &&& forall|j: int|
                    0 <= j < replicas.len() && (#[trigger] replicas[j]).es_coordinador_spec() ==> j
                        == i
            },
{
    let i = choose|i: int| 0 <= i < replicas.len() && (#[trigger] replicas[i]).id == lider;
    assert(replicas[i].es_coordinador_spec());
    assert forall|j: int|
        0 <= j < replicas.len() && (#[trigger] replicas[j]).es_coordinador_spec() implies j == i by {
        if j < i {
            assert(replicas[j].id != replicas[i].id);
        }
        if i < j {
            assert(replicas[i].id != replicas[j].id);
        }
    }
}

/// Two replicas that believe in the same leader do not both lead.
pub proof fn ley_a_lo_sumo_un_lider(a: EleccionCoordinador, b: EleccionCoordinador)
    requires
        a.id != b.id,
        a.id_coordinador == b.id_coordinador,
    ensures
        !(a.es_coordinador_spec() && b.es_coordinador_spec()),
{
}

/// The candidates of an election that `origen` started and that every
/// replica of the ring passed on: the replicas in ring order, from
/// `origen` on, `n` of them.
pub open spec fn candidatos_tras(anillo: Anillo, origen: Direccion, n: nat) -> Seq<Direccion> {
    Seq::new(n, |i: int| Direccion { ip: origen.ip, puerto: anillo.sucesor(origen.puerto, i as nat) })
}

/// An election in which no replica fails is over after as many hops as
/// the ring has replicas: the message is then back at the replica that
/// started it, holds every replica of the ring once, and elects the
/// replica on the lowest port, whoever started the election.
pub proof fn ley_eleccion_sin_fallos(anillo: Anillo, origen: Direccion)
    requires
        anillo.min() <= anillo.max(),
        anillo.contiene(origen.puerto),
    ensures
        anillo.sucesor(origen.puerto, anillo.tamano() as nat) == origen.puerto,
        candidatos_tras(anillo, origen, anillo.tamano() as nat).contains(origen),
        forall|k: nat|
            0 < k < anillo.tamano() ==> !candidatos_tras(anillo, origen, k).contains(
                Direccion { ip: origen.ip, puerto: anillo.sucesor(origen.puerto, k) },
            ),
        es_elegido(
            candidatos_tras(anillo, origen, anillo.tamano() as nat),
            Direccion { ip: origen.ip, puerto: anillo.min() },
        ),
{
    let n = anillo.tamano() as nat;
    let c = candidatos_tras(anillo, origen, n);
    anillo.lema_vuelta(origen.puerto);
    assert(c[0] == origen);
    assert forall|k: nat| 0 < k < anillo.tamano() implies !candidatos_tras(
        anillo,
        origen,
        k,
    ).contains(Direccion { ip: origen.ip, puerto: anillo.sucesor(origen.puerto, k) }) by {
        let ck = candidatos_tras(anillo, origen, k);
        let d = Direccion { ip: origen.ip, puerto: anillo.sucesor(origen.puerto, k) };
        if ck.contains(d) {
            let i = choose|i: int| 0 <= i < ck.len() && ck[i] == d;
            anillo.lema_visita_todos(origen.puerto, origen.puerto);
            assert(anillo.sucesor(origen.puerto, i as nat) == anillo.sucesor(origen.puerto, k));
        }
    }
    anillo.lema_visita_todos(origen.puerto, anillo.min());
    let k = choose|k: nat| k < anillo.tamano() && anillo.sucesor(origen.puerto, k) == anillo.min();
    let m = Direccion { ip: origen.ip, puerto: anillo.min() };
    assert(c[k as int] == m);
    assert forall|j: int| 0 <= j < c.len() implies m.puerto <= (#[trigger] c[j]).puerto by {
        anillo.lema_forma_cerrada(origen.puerto, j as nat);
    }
    assert forall|j: int| 0 <= j < k implies m.puerto < (#[trigger] c[j]).puerto by {
        anillo.lema_forma_cerrada(origen.puerto, j as nat);
        if c[j].puerto == m.puerto {
            assert(anillo.sucesor(origen.puerto, j as nat) == anillo.sucesor(origen.puerto, k));
        }
    }
}

/// Handing an election message on takes a bounded number of attempts:
/// three for every replica of the ring but the sender.
pub proof fn ley_intentos_acotados(anillo: Anillo, id: Direccion)
    requires
        anillo.min() <= anillo.max(),
    ensures
        MAX_REINTENTOS * anillo.destinos_spec(id).len() <= 3
            * anillo.tamano(),
        anillo.contiene(id.puerto) ==> MAX_REINTENTOS
            * anillo.destinos_spec(id).len() == 3 * (anillo.tamano() - 1),
{
}

} // verus!
