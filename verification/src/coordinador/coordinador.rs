use crate::almacenamiento::almacenamiento::{
    claves_validas, lema_misma_cantidad, lema_por_direccion_insert, por_direccion,
};
use crate::almacenamiento::handlers_almacenamiento::{transcurrido, transcurrido_spec};
use crate::coordinador::mensajes_coordinador::{
    AgregarServidorADiccionario, ConectarNuevoServidor, ConvertirseEnCoordinador, HandlePedido,
    ObtenerContadorPeer,
};
use crate::direccion::{lema_clave_inyectiva, lema_de_clave, Direccion, LIMITE_CLAVE};
use crate::eleccion::eleccion::{otros, sin};
use crate::eleccion::recorrido::Recorrido;
use crate::utils::constantes::TIEMPO_MAXIMO_SIN_PING;
use crate::utils::entidades::{Enviador, Instante};
use std::collections::HashMap;
use vstd::prelude::*;
use vstd::std_specs::iter::IteratorSpec;

verus! {

broadcast use vstd::std_specs::hash::group_hash_axioms;

/// A peer link: the writer towards the peer and when it was last refreshed.
pub type Enlace = (Enviador, Instante);

/// A link is usable for handing work over while its last refresh is less
/// than `TIEMPO_MAXIMO_SIN_PING` seconds old.
pub open spec fn enlace_vigente(e: Enlace, ahora: Instante) -> bool {
    transcurrido_spec(ahora, e.1) < TIEMPO_MAXIMO_SIN_PING * 1000
}

/// The coordinator side of one replica: the peers it may reach and the
/// round-robin counter by which it spreads work over them.
pub struct Coordinador {
    direccion: Direccion,
    sockets: Vec<Direccion>,
    handlers_sockets: HashMap<u64, Enlace>,
    contador_sockets: u8,
}

impl Coordinador {
    /// The peer links, by the address of the peer.
    pub closed spec fn enlaces(&self) -> Map<Direccion, Enlace> {
        por_direccion(self.handlers_sockets@)
    }

    /// The replica's own address.
    pub closed spec fn direccion(&self) -> Direccion {
        self.direccion
    }

    /// The peers over which work is spread, in the order of their turns.
    pub closed spec fn sockets(&self) -> Seq<Direccion> {
        self.sockets@
    }

    /// Where the round-robin counter stands.
    pub closed spec fn contador(&self) -> u8 {
        self.contador_sockets
    }

    /// The representation is sound: every key of a link stands for an
    /// address.
    #[verifier::type_invariant]
    pub closed spec fn bien_formado(&self) -> bool {
        claves_validas(self.handlers_sockets@)
    }

    /// Address and peer list are the same in both.
    pub open spec fn mismo_entorno(&self, otro: &Coordinador) -> bool {
        self.direccion() == otro.direccion() && self.sockets() == otro.sockets()
    }

    /// The peer whose turn it is when the counter stands at `contador`.
    pub open spec fn peer_de_turno(&self, contador: int) -> Direccion
        recommends
            self.sockets().len() > 0,
    {
        self.sockets()[(contador % 256) % (self.sockets().len() as int)]
    }

    /// The peer of turn `contador` has a link that is still usable.
    pub open spec fn turno_util(&self, contador: int, ahora: Instante) -> bool {
        let p = self.peer_de_turno(contador);
        self.enlaces().contains_key(p) && enlace_vigente(self.enlaces()[p], ahora)
    }

    /// The coordinator side of the replica at `direccion`, without links.
    pub fn new(direccion: Direccion, sockets: Vec<Direccion>) -> (r: Coordinador)
        ensures
            r.direccion() == direccion,
            r.sockets() == sockets@,
            r.enlaces() == Map::<Direccion, Enlace>::empty(),
            r.contador() == 0,
    {
        let r = Coordinador { direccion, sockets, handlers_sockets: HashMap::new(), contador_sockets: 0 };
        assert(r.enlaces() =~= Map::<Direccion, Enlace>::empty());
        r
    }

    /// Hands out the number at which the counter stands and moves the
    /// counter on by one; after 255 it starts again at 0.
    pub fn obtener_contador_peer(&mut self, _msg: ObtenerContadorPeer) -> (r: u8)
        ensures
            r == old(self).contador(),
            final(self).contador() == (old(self).contador() + 1) % 256,
            final(self).mismo_entorno(old(self)),
            final(self).enlaces() == old(self).enlaces(),
    {
        proof {
            use_type_invariant(&*self);
        }
        let actual = self.contador_sockets;
        self.contador_sockets = if actual == 255 {
            0
        } else {
            actual + 1
        };
        actual
    }

    /// Records the link to a peer. A peer that is known already gets the
    /// new writer and a fresh time.
    pub fn agregar_servidor_a_diccionario(
        &mut self,
        msg: AgregarServidorADiccionario,
        ahora: Instante,
    )
        ensures
            final(self).enlaces() == old(self).enlaces().insert(
                msg.serv_address,
                (msg.serv_enviador, ahora),
            ),
            final(self).mismo_entorno(old(self)),
            final(self).contador() == old(self).contador(),
    {
        proof {
            use_type_invariant(&*self);
        }
        let mut viejo = Coordinador::new(self.direccion, Vec::new());
        std::mem::swap(self, &mut viejo);
        let Coordinador { direccion, sockets, handlers_sockets, contador_sockets } = viejo;
        let mut handlers_sockets = handlers_sockets;
        handlers_sockets.insert(msg.serv_address.clave(), (msg.serv_enviador, ahora));
        proof {
            lema_por_direccion_insert(
                old(self).handlers_sockets@,
                msg.serv_address,
                (msg.serv_enviador, ahora),
            );
        }
        *self = Coordinador { direccion, sockets, handlers_sockets, contador_sockets };
    }

    /// The link to a peer, if there is one.
    pub fn obtener_enlace(&self, peer: Direccion) -> (r: Option<Enlace>)
        ensures
            r == self.enlaces().get(peer),
    {
        proof {
            use_type_invariant(self);
        }
        match self.handlers_sockets.get(&peer.clave()) {
            Some(e) => Some(*e),
            None => None,
        }
    }

    /// `r` is what the choice of a peer at `ahora` comes to, and
    /// `contador_final` where it leaves the counter. The peers take turns
    /// from where the counter stands; the first whose link is usable is
    /// chosen, and `r` is the writer of its link. After as many turns as
    /// there are peers, none is chosen.
    pub open spec fn elige(&self, ahora: Instante, r: Option<Enviador>, contador_final: u8) -> bool {
        match r {
            Some(e) => exists|k: int|
                {
                    &&& 0 <= k < self.sockets().len()
                    &&& #[trigger] self.turno_util(self.contador() + k, ahora)
                    &&& forall|j: int|
                        0 <= j < k ==> !#[trigger] self.turno_util(self.contador() + j, ahora)
                    &&& e == self.enlaces()[self.peer_de_turno(self.contador() + k)].0
                    &&& contador_final == (self.contador() + k + 1) % 256
                },
            None => {
                &&& forall|j: int|
                    0 <= j < self.sockets().len() ==> !#[trigger] self.turno_util(
                        self.contador() + j,
                        ahora,
                    )
                &&& contador_final == (self.contador() + self.sockets().len()) % 256
            },
        }
    }

    /// `r` lists the writers of the links, one per link: `ds` names every
    /// linked peer once, and `r` holds, place by place, the writers of their
    /// links.
    pub open spec fn lista_enlaces(&self, ds: Seq<Direccion>, r: Seq<Enviador>) -> bool {
        &&& ds.no_duplicates()
        &&& ds.len() == r.len()
        &&& forall|d: Direccion| self.enlaces().contains_key(d) <==> ds.contains(d)
        &&& forall|i: int| 0 <= i < ds.len() ==> r[i] == self.enlaces()[#[trigger] ds[i]].0
    }

    /// Picks the peer to which the search of a courier is handed: the peers
    /// take turns by the counter, and one without a usable link loses its
    /// turn. Gives up after as many turns as there are peers.
    pub fn handle_pedido(&mut self, _msg: HandlePedido, ahora: Instante) -> (r: Option<Enviador>)
        ensures
            final(self).mismo_entorno(old(self)),
            final(self).enlaces() == old(self).enlaces(),
            old(self).elige(ahora, r, final(self).contador()),
    {
        let n = self.sockets.len();
        let mut intentos: usize = 0;
        while intentos < n
            invariant
                intentos <= n,
                n == self.sockets.len(),
                self.mismo_entorno(old(self)),
                self.enlaces() == old(self).enlaces(),
                self.contador_sockets == (old(self).contador() + intentos) % 256,
                forall|j: int|
                    0 <= j < intentos ==> !#[trigger] old(self).turno_util(
                        old(self).contador() + j,
                        ahora,
                    ),
            decreases n - intentos,
        {
            let contador = self.obtener_contador_peer(ObtenerContadorPeer);
            let peer = self.sockets[contador as usize % n];
            assert(peer == old(self).peer_de_turno(old(self).contador() + intentos));
            let enlace = self.obtener_enlace(peer);
            if let Some(e) = enlace {
                if transcurrido(ahora, e.1) < TIEMPO_MAXIMO_SIN_PING * 1000 {
                    assert(old(self).turno_util(old(self).contador() + intentos, ahora));
                    return Some(e.0);
                }
            }
            intentos = intentos + 1;
        }
        None
    }

    /// The writers of all peer links, one per link, to each of which a
    /// delta is queued.
    pub fn actualizacion_broadcast(&self) -> (r: Vec<Enviador>)
        ensures
            exists|ds: Seq<Direccion>| #[trigger] self.lista_enlaces(ds, r@),
            r.len() == self.enlaces().dom().len(),
    {
        proof {
            use_type_invariant(self);
        }
        let mut v: Vec<Enviador> = Vec::new();
        let ghost mut ds: Seq<Direccion> = Seq::empty();
        for par in it: self.handlers_sockets.iter()
            invariant
                it.seq() == self.handlers_sockets.iter().remaining(),
                v.len() == it.index(),
                ds.len() == it.index(),
                forall|i: int| 0 <= i < v.len() ==> v[i] == (*it.seq()[i].1).0,
                forall|i: int|
                    0 <= i < ds.len() ==> ds[i] == Direccion::de_clave_spec(*it.seq()[i].0),
        {
            let (k, e) = par;
            v.push(e.0);
            proof {
                ds = ds.push(Direccion::de_clave_spec(*k));
            }
        }
        proof {
            let pares = self.handlers_sockets.iter().remaining();
            let m = self.handlers_sockets@;
            assert forall|i: int| 0 <= i < ds.len() implies m.contains_key(*pares[i].0) && m[*pares[i].0]
                == *pares[i].1 && ds[i].clave_spec() == *pares[i].0 && self.enlaces().contains_key(
                #[trigger] ds[i],
            ) && v@[i] == self.enlaces()[ds[i]].0 by {
                let k = *pares[i].0;
                assert(m.contains_key(k) && m[k] == *pares[i].1);
                lema_enlace_de_clave(m, k);
                lema_de_clave(k);
            }
            assert forall|i: int, j: int| 0 <= i < j < ds.len() implies ds[i] != ds[j] by {
                if ds[i] == ds[j] {
                    assert(ds[i].clave_spec() == *pares[i].0);
                    assert(ds[j].clave_spec() == *pares[j].0);
                    assert(*pares[i].1 == m[*pares[i].0]);
                    assert(*pares[j].1 == m[*pares[j].0]);
                    assert(pares[i] == pares[j]);
                }
            }
            assert forall|d: Direccion| self.enlaces().contains_key(d) <==> ds.contains(d) by {
                if self.enlaces().contains_key(d) {
                    let k = d.clave_spec();
                    assert(pares.contains((&k, &m[k])));
                    let i = choose|i: int| 0 <= i < pares.len() && pares[i] == (&k, &m[k]);
                    lema_clave_inyectiva(ds[i], d);
                    assert(ds[i] == d);
                }
                if ds.contains(d) {
                    let i = choose|i: int| 0 <= i < ds.len() && ds[i] == d;
                    assert(self.enlaces().contains_key(ds[i]));
                }
            }
            assert(self.lista_enlaces(ds, v@));
            lema_misma_cantidad(m);
        }
        v
    }

    /// Takes note of a replica that made itself known. The link to a known
    /// peer is refreshed. An unknown peer is returned, to be connected to;
    /// the replica itself never is.
    pub fn conectar_nuevo_servidor(
        &mut self,
        msg: ConectarNuevoServidor,
        ahora: Instante,
    ) -> (r: Option<Recorrido>)
        ensures
            final(self).mismo_entorno(old(self)),
            final(self).contador() == old(self).contador(),
            old(self).enlaces().contains_key(msg.nuevo_servidor) ==> {
                &&& r is None
                &&& final(self).enlaces() == old(self).enlaces().insert(
                    msg.nuevo_servidor,
                    (old(self).enlaces()[msg.nuevo_servidor].0, ahora),
                )
            },
            !old(self).enlaces().contains_key(msg.nuevo_servidor) ==> {
                &&& final(self).enlaces() == old(self).enlaces()
                &&& (r is None <==> msg.nuevo_servidor == old(self).direccion())
                &&& r matches Some(w) ==> w.destinos() == seq![msg.nuevo_servidor] && w.indice()
                    == 0 && w.intentos() == 0
            },
    {
        let peer = msg.nuevo_servidor;
        match self.obtener_enlace(peer) {
            Some(e) => {
                self.agregar_servidor_a_diccionario(
                    AgregarServidorADiccionario { serv_address: peer, serv_enviador: e.0 },
                    ahora,
                );
                None
            },
            None => self.conectar_a_peer(peer),
        }
    }

    /// The attempts at connecting to one peer; none for the replica itself.
    pub fn conectar_a_peer(&self, peer: Direccion) -> (r: Option<Recorrido>)
        ensures
            r is None <==> peer == self.direccion(),
            r matches Some(w) ==> w.destinos() == seq![peer] && w.indice() == 0 && w.intentos()
                == 0,
    {
        proof {
            use_type_invariant(self);
        }
        if peer == self.direccion {
            None
        } else {
            let mut destinos: Vec<Direccion> = Vec::new();
            destinos.push(peer);
            Some(Recorrido::new(destinos))
        }
    }

    /// Takes the outcome of an attempt to connect to the peer of the walk:
    /// the writer of the connection that was made, or none. A connection
    /// becomes the peer's link, fresh as of `ahora`, and the peer is left
    /// behind. A failure counts against the peer's attempts. Returns the
    /// peer to connect to next, if any is left.
    pub fn respuesta_de_conexion(
        &mut self,
        conexion: &mut Recorrido,
        conectado: Option<Enviador>,
        ahora: Instante,
    ) -> (r: Option<Direccion>)
        ensures
            final(self).mismo_entorno(old(self)),
            final(self).contador() == old(self).contador(),
            r == final(conexion).objetivo_spec(),
            match conectado {
                Some(e) => {
                    &&& old(conexion).tras_pasar(final(conexion))
                    &&& final(self).enlaces() == match old(conexion).objetivo_spec() {
                        Some(peer) => old(self).enlaces().insert(peer, (e, ahora)),
                        None => old(self).enlaces(),
                    }
                },
                None => {
                    &&& old(conexion).tras_fallo(final(conexion))
                    &&& final(self).enlaces() == old(self).enlaces()
                },
            },
    {
        match conectado {
            Some(e) => {
                match conexion.objetivo() {
                    Some(peer) => {
                        self.agregar_servidor_a_diccionario(
                            AgregarServidorADiccionario { serv_address: peer, serv_enviador: e },
                            ahora,
                        );
                    },
                    None => {},
                }
                conexion.pasar_al_siguiente();
            },
            None => {
                conexion.registrar_fallo();
            },
        }
        conexion.objetivo()
    }

    /// The peers that a new leader connects to: all of its list but itself.
    pub fn convertirse_en_coordinador(&self, _msg: ConvertirseEnCoordinador) -> (r: Vec<Direccion>)
        ensures
            r@ == otros(self.sockets(), self.direccion()),
    {
        proof {
            use_type_invariant(self);
        }
        sin(&self.sockets, self.direccion)
    }
}

/// A key of the integer-keyed map that is the key of an address is found
/// under that address.
proof fn lema_enlace_de_clave(m: Map<u64, Enlace>, k: u64)
    requires
        m.contains_key(k),
    ensures
        k < LIMITE_CLAVE ==> por_direccion(m).contains_key(
            Direccion::de_clave_spec(k),
        ) && por_direccion(m)[Direccion::de_clave_spec(k)] == m[k],
{
    if k < LIMITE_CLAVE {
        lema_de_clave(k);
    }
}

} // verus!
