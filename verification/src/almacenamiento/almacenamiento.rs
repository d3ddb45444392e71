use crate::almacenamiento::handlers_almacenamiento::{
    ausente, distancia_al_origen, normalizar, transcurrido,
};
use crate::almacenamiento::mensajes_almacenamiento::{
    ActualizarComensalUbicacionRestaurante, ActualizarRepartidor, BorrarComensal, BorrarRepartidor,
    BorrarRepartidoresAusentes, BorrarRestaurante, Finalizado, HayRecursosDisponibles, InsertarComensal,
    InsertarRepartidor, InsertarRestaurante, ObtenerComensal, ObtenerRepartidor,
    MensajeAlmacenamiento, ObtenerRepartidorCercano, QuieroPedidoSoyComensal, RepartidorAusente,
    RespuestaAlmacenamiento,
};
use crate::common::mensajes::FinalizarViaje;
use crate::direccion::{distancia_cuadrada, distancia_cuadrada_spec, Coordenadas};
use crate::utils::constantes::ESPERA_MAXIMA_REPARTIDOR_MS;
use crate::utils::entidades::Instante;
use vstd::std_specs::iter::IteratorSpec;
use crate::direccion::{lema_clave_inyectiva, lema_de_clave, Direccion, LIMITE_CLAVE};
use crate::utils::entidades::{
    EntidadComensal, EntidadRepartidor, EntidadRestaurante, EstadoRepartidor,
};
use crate::utils::errores_servidor::ServidorError;
use std::collections::HashMap;
use vstd::prelude::*;

verus! {

broadcast use vstd::std_specs::hash::group_hash_axioms;

/// A map keyed by integer, read as a map keyed by the addresses that the
/// integers stand for.
pub open spec fn por_direccion<V>(m: Map<u64, V>) -> Map<Direccion, V> {
    Map::new(|d: Direccion| m.contains_key(d.clave_spec()), |d: Direccion| m[d.clave_spec()])
}

/// Every key of the map is the key of an address.
pub open spec fn claves_validas<V>(m: Map<u64, V>) -> bool {
    forall|k: u64| m.contains_key(k) ==> k < LIMITE_CLAVE
}

/// Putting a value under the key of an address is putting it under the
/// address.
pub proof fn lema_por_direccion_insert<V>(m: Map<u64, V>, d: Direccion, v: V)
    ensures
        por_direccion(m.insert(d.clave_spec(), v)) == por_direccion(m).insert(d, v),
        claves_validas(m) ==> claves_validas(m.insert(d.clave_spec(), v)),
{
    assert forall|x: Direccion| x.clave_spec() == d.clave_spec() <==> x == d by {
        lema_clave_inyectiva(x, d);
    }
    lema_clave_inyectiva(d, d);
    assert(por_direccion(m.insert(d.clave_spec(), v)) =~= por_direccion(m).insert(d, v));
}

/// Taking the key of an address out is taking the address out.
pub proof fn lema_por_direccion_remove<V>(m: Map<u64, V>, d: Direccion)
    ensures
        por_direccion(m.remove(d.clave_spec())) == por_direccion(m).remove(d),
        claves_validas(m) ==> claves_validas(m.remove(d.clave_spec())),
{
    assert forall|x: Direccion| x.clave_spec() == d.clave_spec() <==> x == d by {
        lema_clave_inyectiva(x, d);
    }
    assert(por_direccion(m.remove(d.clave_spec())) =~= por_direccion(m).remove(d));
}

/// A map with valid keys is empty iff its reading by address is.
pub proof fn lema_por_direccion_vacio<V>(m: Map<u64, V>)
    requires
        claves_validas(m),
    ensures
        m.dom() =~= Set::empty() <==> por_direccion(m).dom() =~= Set::empty(),
{
    if !(m.dom() =~= Set::empty()) {
        let k = choose|k: u64| m.dom().contains(k);
        lema_de_clave(k);
        assert(por_direccion(m).dom().contains(Direccion::de_clave_spec(k)));
    }
    if !(por_direccion(m).dom() =~= Set::empty()) {
        let d = choose|d: Direccion| por_direccion(m).dom().contains(d);
        assert(m.dom().contains(d.clave_spec()));
    }
}

/// What a replica knows of diners, couriers and restaurants, as three maps
/// keyed by address.
pub struct VistaAlmacenamiento {
    pub comensales: Map<Direccion, EntidadComensal>,
    pub repartidores: Map<Direccion, EntidadRepartidor>,
    pub restaurantes: Map<Direccion, EntidadRestaurante>,
}

impl VistaAlmacenamiento {
    /// The store with nothing in it.
    pub open spec fn vacia() -> VistaAlmacenamiento {
        VistaAlmacenamiento {
            comensales: Map::empty(),
            repartidores: Map::empty(),
            restaurantes: Map::empty(),
        }
    }

    /// Every courier that waits, waits for a diner; every courier that is
    /// free is assigned to none.
    pub open spec fn bien_formada(self) -> bool {
        forall|d: Direccion| #[trigger]
            self.repartidores.contains_key(d) ==> self.repartidores[d].coherente()
    }

    /// An order can only be served while at least one courier and at least
    /// one restaurant are known.
    pub open spec fn hay_recursos(self) -> bool {
        !(self.repartidores.dom() =~= Set::empty()) && !(self.restaurantes.dom() =~= Set::empty())
    }
}

/// In-memory soft state of one replica. Only the leader's copy decides
/// dispatch; the copies on followers are fed by the leader's deltas.
pub struct Almacenamiento {
    comensales: HashMap<u64, EntidadComensal>,
    repartidores_posta: HashMap<u64, EntidadRepartidor>,
    restaurantes: HashMap<u64, EntidadRestaurante>,
}

impl View for Almacenamiento {
    type V = VistaAlmacenamiento;

    closed spec fn view(&self) -> VistaAlmacenamiento {
        VistaAlmacenamiento {
            comensales: por_direccion(self.comensales@),
            repartidores: por_direccion(self.repartidores_posta@),
            restaurantes: por_direccion(self.restaurantes@),
        }
    }
}

impl Almacenamiento {
    /// The representation is sound: every key stands for an address, and
    /// every courier entry is coherent.
    #[verifier::type_invariant]
    pub closed spec fn bien_formado(&self) -> bool {
        &&& claves_validas(self.comensales@)
        &&& claves_validas(self.repartidores_posta@)
        &&& claves_validas(self.restaurantes@)
        &&& forall|k: u64| #[trigger]
            self.repartidores_posta@.contains_key(k) ==> self.repartidores_posta@[k].coherente()
    }

    /// The store with nothing in it.
    fn vacio() -> (a: Almacenamiento)
        ensures
            a@ == VistaAlmacenamiento::vacia(),
    {
        let almacenamiento = Almacenamiento {
            comensales: HashMap::new(),
            repartidores_posta: HashMap::new(),
            restaurantes: HashMap::new(),
        };
        assert(almacenamiento@.comensales =~= Map::empty());
        assert(almacenamiento@.repartidores =~= Map::empty());
        assert(almacenamiento@.restaurantes =~= Map::empty());
        almacenamiento
    }

    /// Takes the three maps out of the store, to be changed and put back.
    fn abrir(&mut self) -> (r: (
        HashMap<u64, EntidadComensal>,
        HashMap<u64, EntidadRepartidor>,
        HashMap<u64, EntidadRestaurante>,
    ))
        ensures
            r.0@ == old(self).comensales@,
            r.1@ == old(self).repartidores_posta@,
            r.2@ == old(self).restaurantes@,
            old(self).bien_formado(),
    {
        proof {
            use_type_invariant(&*self);
        }
        let mut viejo = Almacenamiento::vacio();
        std::mem::swap(self, &mut viejo);
        let Almacenamiento { comensales, repartidores_posta, restaurantes } = viejo;
        (comensales, repartidores_posta, restaurantes)
    }

    /// Starts an empty store.
    pub fn start() -> (r: Result<Almacenamiento, ServidorError>)
        ensures
            r matches Ok(a) && a@ == VistaAlmacenamiento::vacia() && a@.bien_formada(),
    {
        let almacenamiento = Almacenamiento::vacio();
        proof {
            use_type_invariant(&almacenamiento);
            lema_vista_bien_formada(almacenamiento);
        }
        Ok(almacenamiento)
    }

    /// True iff at least one courier and at least one restaurant are known.
    pub fn hay_recursos_disponibles(&self, _msg: HayRecursosDisponibles) -> (r: bool)
        ensures
            self@.bien_formada(),
            r == self@.hay_recursos(),
    {
        proof {
            use_type_invariant(self);
            lema_vista_bien_formada(*self);
            lema_por_direccion_vacio(self.repartidores_posta@);
            lema_por_direccion_vacio(self.restaurantes@);
        }
        !(self.repartidores_posta.is_empty() || self.restaurantes.is_empty())
    }
}

/// A sound store reads as a well-formed view.
pub proof fn lema_vista_bien_formada(a: Almacenamiento)
    requires
        a.bien_formado(),
    ensures
        a@.bien_formada(),
{
    assert forall|d: Direccion| #[trigger] a@.repartidores.contains_key(d) implies a@.repartidores[d].coherente() by {
        assert(a.repartidores_posta@.contains_key(d.clave_spec()));
    }
}

impl Almacenamiento {
    /// Inserts a courier, or refreshes position, state and time of one that
    /// is already known.
    pub fn insertar_repartidor(&mut self, msj: InsertarRepartidor)
        ensures
            final(self)@ == old(self)@.insertar_repartidor(msj),
            final(self)@.bien_formada(),
    {
        let (comensales, mut repartidores_posta, restaurantes) = self.abrir();
        let k = msj.id.clave();
        let nuevo = match repartidores_posta.get(&k) {
            Some(previo) => {
                let n = normalizar(msj.estado, previo.id_actual_comensal);
                EntidadRepartidor {
                    posicion_repartidor: msj.posicion_restaurante,
                    id_actual_comensal: n.1,
                    restaurante_sender: previo.restaurante_sender,
                    estado: n.0,
                    time_stamp: msj.time_stamp,
                }
            },
            None => {
                let n = normalizar(msj.estado, msj.id_comensal_actual);
                EntidadRepartidor {
                    posicion_repartidor: msj.posicion_restaurante,
                    id_actual_comensal: n.1,
                    restaurante_sender: msj.enviador_repartidor,
                    estado: n.0,
                    time_stamp: msj.time_stamp,
                }
            },
        };
        repartidores_posta.insert(k, nuevo);
        *self = Almacenamiento { comensales, repartidores_posta, restaurantes };
        proof {
            lema_por_direccion_insert(old(self).repartidores_posta@, msj.id, nuevo);
            lema_vista_bien_formada(*self);
        }
    }

    /// Records a diner, replacing what was known of it.
    pub fn insertar_comensal(&mut self, msj: InsertarComensal)
        ensures
            final(self)@ == old(self)@.insertar_comensal(msj),
            final(self)@.bien_formada(),
    {
        let (mut comensales, repartidores_posta, restaurantes) = self.abrir();
        let nuevo = EntidadComensal {
            posicion_comensal: msj.posicion_restaurante_del_pedido,
            destino_comensal: msj.ubicacion_comensal,
            enviador_comensal: msj.enviador_comensal,
        };
        comensales.insert(msj.id.clave(), nuevo);
        *self = Almacenamiento { comensales, repartidores_posta, restaurantes };
        proof {
            lema_por_direccion_insert(old(self).comensales@, msj.id, nuevo);
            lema_vista_bien_formada(*self);
        }
    }

    /// Inserts a restaurant, or refreshes position, state and time of one
    /// that is already known.
    pub fn insertar_restaurante(&mut self, msj: InsertarRestaurante)
        ensures
            final(self)@ == old(self)@.insertar_restaurante(msj),
            final(self)@.bien_formada(),
    {
        let (comensales, repartidores_posta, mut restaurantes) = self.abrir();
        let k = msj.id.clave();
        let enviador = match restaurantes.get(&k) {
            Some(previo) => previo.repartidor_sender,
            None => msj.enviador_repartidor,
        };
        let nuevo = EntidadRestaurante {
            posicion_restaurante: msj.posicion_repartidor,
            repartidor_sender: enviador,
            estado: msj.estado,
            time_stamp: msj.time_stamp,
        };
        restaurantes.insert(k, nuevo);
        *self = Almacenamiento { comensales, repartidores_posta, restaurantes };
        proof {
            lema_por_direccion_insert(old(self).restaurantes@, msj.id, nuevo);
            lema_vista_bien_formada(*self);
        }
    }

    /// The diner stored under an address, if any.
    pub fn obtener_comensal(&self, msj: ObtenerComensal) -> (r: Option<EntidadComensal>)
        ensures
            self@.bien_formada(),
            r == self@.comensales.get(msj.id),
    {
        proof {
            use_type_invariant(self);
            lema_vista_bien_formada(*self);
        }
        match self.comensales.get(&msj.id.clave()) {
            Some(c) => Some(*c),
            None => None,
        }
    }

    /// The courier stored under an address, if any.
    pub fn obtener_repartidor(&self, msj: ObtenerRepartidor) -> (r: Option<EntidadRepartidor>)
        ensures
            self@.bien_formada(),
            r == self@.repartidores.get(msj.id),
            r matches Some(e) ==> e.coherente(),
    {
        proof {
            use_type_invariant(self);
            lema_vista_bien_formada(*self);
        }
        match self.repartidores_posta.get(&msj.id.clave()) {
            Some(c) => Some(*c),
            None => None,
        }
    }

    /// Sets state, assignment and time of a known courier; an unknown one is
    /// left unknown.
    pub fn actualizar_repartidor(&mut self, msj: ActualizarRepartidor)
        ensures
            final(self)@ == old(self)@.actualizar_repartidor(msj),
            final(self)@.bien_formada(),
    {
        let (comensales, mut repartidores_posta, restaurantes) = self.abrir();
        let k = msj.id_repartidor.clave();
        let previo = match repartidores_posta.get(&k) {
            Some(previo) => *previo,
            None => {
                *self = Almacenamiento { comensales, repartidores_posta, restaurantes };
                proof {
                    lema_vista_bien_formada(*self);
                }
                return ;
            },
        };
        let n = normalizar(msj.estado, msj.id_comensal);
        let nuevo = EntidadRepartidor {
            posicion_repartidor: previo.posicion_repartidor,
            id_actual_comensal: n.1,
            restaurante_sender: previo.restaurante_sender,
            estado: n.0,
            time_stamp: msj.time_stamp,
        };
        repartidores_posta.insert(k, nuevo);
        *self = Almacenamiento { comensales, repartidores_posta, restaurantes };
        proof {
            lema_por_direccion_insert(old(self).repartidores_posta@, msj.id_repartidor, nuevo);
            lema_vista_bien_formada(*self);
        }
    }

    /// Records where the order of a known diner is picked up; an unknown
    /// diner is left unknown.
    pub fn actualizar_comensal_ubicacion_restaurante(
        &mut self,
        msj: ActualizarComensalUbicacionRestaurante,
    )
        ensures
            final(self)@ == old(self)@.actualizar_comensal_ubicacion_restaurante(msj),
            final(self)@.bien_formada(),
    {
        let (mut comensales, repartidores_posta, restaurantes) = self.abrir();
        let k = msj.id_comensal.clave();
        let previo = match comensales.get(&k) {
            Some(previo) => *previo,
            None => {
                *self = Almacenamiento { comensales, repartidores_posta, restaurantes };
                proof {
                    lema_vista_bien_formada(*self);
                }
                return ;
            },
        };
        let nuevo = EntidadComensal {
            posicion_comensal: msj.nueva_ubicacion,
            destino_comensal: previo.destino_comensal,
            enviador_comensal: previo.enviador_comensal,
        };
        comensales.insert(k, nuevo);
        *self = Almacenamiento { comensales, repartidores_posta, restaurantes };
        proof {
            lema_por_direccion_insert(old(self).comensales@, msj.id_comensal, nuevo);
            lema_vista_bien_formada(*self);
        }
    }

    /// Forgets a courier; forgetting an unknown one changes nothing.
    pub fn borrar_repartidor(&mut self, msj: BorrarRepartidor)
        ensures
            final(self)@ == old(self)@.borrar_repartidor(msj),
            final(self)@.bien_formada(),
    {
        let (comensales, mut repartidores_posta, restaurantes) = self.abrir();
        let k = msj.id.clave();
        repartidores_posta.remove(&k);
        *self = Almacenamiento { comensales, repartidores_posta, restaurantes };
        proof {
            lema_por_direccion_remove(old(self).repartidores_posta@, msj.id);
            lema_vista_bien_formada(*self);
        }
    }

    /// Forgets a diner; forgetting an unknown one changes nothing.
    pub fn borrar_comensal(&mut self, msj: BorrarComensal)
        ensures
            final(self)@ == old(self)@.borrar_comensal(msj),
            final(self)@.bien_formada(),
    {
        let (mut comensales, repartidores_posta, restaurantes) = self.abrir();
        let k = msj.id.clave();
        comensales.remove(&k);
        *self = Almacenamiento { comensales, repartidores_posta, restaurantes };
        proof {
            lema_por_direccion_remove(old(self).comensales@, msj.id);
            lema_vista_bien_formada(*self);
        }
    }

    /// Forgets a restaurant; forgetting an unknown one changes nothing.
    pub fn borrar_restaurante(&mut self, msj: BorrarRestaurante)
        ensures
            final(self)@ == old(self)@.borrar_restaurante(msj),
            final(self)@.bien_formada(),
    {
        let (comensales, repartidores_posta, mut restaurantes) = self.abrir();
        let k = msj.id.clave();
        restaurantes.remove(&k);
        *self = Almacenamiento { comensales, repartidores_posta, restaurantes };
        proof {
            lema_por_direccion_remove(old(self).restaurantes@, msj.id);
            lema_vista_bien_formada(*self);
        }
    }

    /// The restaurant stored under an address, if any.
    pub fn obtener_restaurante(&self, id: Direccion) -> (r: Option<EntidadRestaurante>)
        ensures
            self@.bien_formada(),
            r == self@.restaurantes.get(id),
    {
        proof {
            use_type_invariant(self);
            lema_vista_bien_formada(*self);
        }
        match self.restaurantes.get(&id.clave()) {
            Some(c) => Some(*c),
            None => None,
        }
    }

    /// How many diners, couriers and restaurants are stored.
    pub fn cantidades(&self) -> (r: (usize, usize, usize))
        ensures
            self@.bien_formada(),
            r.0 == self@.comensales.dom().len(),
            r.1 == self@.repartidores.dom().len(),
            r.2 == self@.restaurantes.dom().len(),
    {
        proof {
            use_type_invariant(self);
            lema_vista_bien_formada(*self);
            lema_misma_cantidad(self.comensales@);
            lema_misma_cantidad(self.repartidores_posta@);
            lema_misma_cantidad(self.restaurantes@);
        }
        (self.comensales.len(), self.repartidores_posta.len(), self.restaurantes.len())
    }

    /// True iff the diner is no longer stored.
    pub fn finalizado(&self, msj: Finalizado) -> (r: bool)
        ensures
            self@.bien_formada(),
            r == self@.finalizado(msj.id_comensal),
    {
        proof {
            use_type_invariant(self);
            lema_vista_bien_formada(*self);
        }
        !self.comensales.contains_key(&msj.id_comensal.clave())
    }

    /// Frees the courier of a finished delivery and forgets its diner.
    pub fn finalizar_viaje(&mut self, msj: FinalizarViaje, ahora: Instante)
        ensures
            final(self)@ == old(self)@.finalizar_viaje(msj, ahora),
            final(self)@.bien_formada(),
    {
        let (mut comensales, mut repartidores_posta, restaurantes) = self.abrir();
        let kr = msj.direccion_conductor_f.clave();
        let previo = match repartidores_posta.get(&kr) {
            Some(previo) => Some(*previo),
            None => None,
        };
        if let Some(previo) = previo {
            let nuevo = EntidadRepartidor {
                posicion_repartidor: msj.pos_destino,
                id_actual_comensal: None,
                restaurante_sender: previo.restaurante_sender,
                estado: EstadoRepartidor::Active,
                time_stamp: ahora,
            };
            repartidores_posta.insert(kr, nuevo);
            proof {
                lema_por_direccion_insert(
                    old(self).repartidores_posta@,
                    msj.direccion_conductor_f,
                    nuevo,
                );
            }
        }
        let kc = msj.direccion_comensal_f.clave();
        comensales.remove(&kc);
        *self = Almacenamiento { comensales, repartidores_posta, restaurantes };
        proof {
            lema_por_direccion_remove(old(self).comensales@, msj.direccion_comensal_f);
            lema_vista_bien_formada(*self);
        }
    }
}

impl Almacenamiento {
    /// The free courier that stands nearest to the origin of the map.
    pub fn obtener_repartidor_cercano(&self, _msg: ObtenerRepartidorCercano) -> (r: Option<Direccion>)
        ensures
            self@.bien_formada(),
            self@.es_repartidor_cercano(r),
    {
        proof {
            use_type_invariant(self);
            lema_vista_bien_formada(*self);
        }
        let origen = Coordenadas::origen();
        let mut mejor: Option<u64> = None;
        let mut menor: u128 = 0;
        for par in it: self.repartidores_posta.iter()
            invariant
                self.bien_formado(),
                origen == (Coordenadas { x: 0, y: 0 }),
                it.seq() == self.repartidores_posta.iter().remaining(),
                match mejor {
                    Some(k) => {
                        &&& self.repartidores_posta@.contains_key(k)
                        &&& self.repartidores_posta@[k].estado == EstadoRepartidor::Active
                        &&& menor == distancia_al_origen(
                            self.repartidores_posta@[k].posicion_repartidor,
                        )
                        &&& forall|i: int|
                            0 <= i < it.index() && (*it.seq()[i].1).estado
                                == EstadoRepartidor::Active ==> menor <= distancia_al_origen(
                                (*it.seq()[i].1).posicion_repartidor,
                            )
                    },
                    None => forall|i: int|
                        0 <= i < it.index() ==> (*it.seq()[i].1).estado
                            != EstadoRepartidor::Active,
                },
        {
            let (k, e) = par;
            if e.estado == EstadoRepartidor::Active {
                let d = distancia_cuadrada(e.posicion_repartidor, origen);
                if mejor.is_none() || d < menor {
                    mejor = Some(*k);
                    menor = d;
                }
            }
        }
        match mejor {
            Some(k) => {
                let d = Direccion::de_clave(k);
                proof {
                    assert forall|o: Direccion| #[trigger]
                        self@.repartidores.contains_key(o) && self@.repartidores[o].estado
                            == EstadoRepartidor::Active implies distancia_al_origen(
                        self@.repartidores[d].posicion_repartidor,
                    ) <= distancia_al_origen(self@.repartidores[o].posicion_repartidor) by {
                        let ko = o.clave_spec();
                        assert(self.repartidores_posta@.contains_key(ko));
                    }
                }
                Some(d)
            },
            None => {
                proof {
                    assert forall|o: Direccion| #[trigger]
                        self@.repartidores.contains_key(o) implies self@.repartidores[o].estado
                        != EstadoRepartidor::Active by {
                        let ko = o.clave_spec();
                        assert(self.repartidores_posta@.contains_key(ko));
                    }
                }
                None
            },
        }
    }

    /// The open restaurant that stands nearest to the diner.
    pub fn quiero_pedido_soy_comensal(&self, quiero_pedido: QuieroPedidoSoyComensal) -> (r: Option<
        EntidadRestaurante,
    >)
        ensures
            self@.bien_formada(),
            self@.es_restaurante_cercano(quiero_pedido.ubicacion_comensal, r),
    {
        proof {
            use_type_invariant(self);
            lema_vista_bien_formada(*self);
        }
        let pos = quiero_pedido.ubicacion_comensal;
        let mut mejor: Option<EntidadRestaurante> = None;
        let mut clave: Ghost<u64> = Ghost(0);
        let mut menor: u128 = 0;
        for par in it: self.restaurantes.iter()
            invariant
                self.bien_formado(),
                it.seq() == self.restaurantes.iter().remaining(),
                match mejor {
                    Some(e) => {
                        &&& self.restaurantes@.contains_key(clave@)
                        &&& self.restaurantes@[clave@] == e
                        &&& e.estado == EstadoRepartidor::Active
                        &&& menor == distancia_cuadrada_spec(e.posicion_restaurante, pos)
                        &&& forall|i: int|
                            0 <= i < it.index() && (*it.seq()[i].1).estado
                                == EstadoRepartidor::Active ==> menor <= distancia_cuadrada_spec(
                                (*it.seq()[i].1).posicion_restaurante,
                                pos,
                            )
                    },
                    None => forall|i: int|
                        0 <= i < it.index() ==> (*it.seq()[i].1).estado
                            != EstadoRepartidor::Active,
                },
        {
            let (k, e) = par;
            if e.estado == EstadoRepartidor::Active {
                let d = distancia_cuadrada(e.posicion_restaurante, pos);
                if mejor.is_none() || d < menor {
                    mejor = Some(*e);
                    clave = Ghost(*k);
                    menor = d;
                }
            }
        }
        proof {
            match mejor {
                Some(e) => {
                    let d = Direccion::de_clave_spec(clave@);
                    lema_de_clave(clave@);
                    assert(self@.restaurantes.contains_key(d) && self@.restaurantes[d] == e);
                    assert forall|o: Direccion| #[trigger]
                        self@.restaurantes.contains_key(o) && self@.restaurantes[o].estado
                            == EstadoRepartidor::Active implies distancia_cuadrada_spec(
                        e.posicion_restaurante,
                        pos,
                    ) <= distancia_cuadrada_spec(self@.restaurantes[o].posicion_restaurante, pos) by {
                        let ko = o.clave_spec();
                        assert(self.restaurantes@.contains_key(ko));
                    }
                },
                None => {
                    assert forall|o: Direccion| #[trigger]
                        self@.restaurantes.contains_key(o) implies self@.restaurantes[o].estado
                        != EstadoRepartidor::Active by {
                        let ko = o.clave_spec();
                        assert(self.restaurantes@.contains_key(ko));
                    }
                },
            }
        }
        mejor
    }
}

impl Almacenamiento {
    /// Removes every courier that has been waiting for too long, together
    /// with the diner it held up, and reports each of them once.
    pub fn borrar_repartidores_ausentes(
        &mut self,
        _msg: BorrarRepartidoresAusentes,
        ahora: Instante,
    ) -> (r: Vec<RepartidorAusente>)
        ensures
            final(self)@.bien_formada(),
            final(self)@ == old(self)@.borrar_repartidores_ausentes(ahora),
            old(self)@.informa(ahora, r@),
    {
        proof {
            use_type_invariant(&*self);
        }
        let ghost vista = self@;
        let ghost reps = self.repartidores_posta@;
        let ghost coms = self.comensales@;
        let mut ausentes: Vec<RepartidorAusente> = Vec::new();
        let ghost mut idx: Seq<int> = Seq::empty();
        for par in it: self.repartidores_posta.iter()
            invariant
                self.bien_formado(),
                vista == self@,
                reps == self.repartidores_posta@,
                it.seq() == self.repartidores_posta.iter().remaining(),
                it.seq().no_duplicates(),
                idx.len() == ausentes.len(),
                forall|j: int| 0 <= j < idx.len() ==> 0 <= #[trigger] idx[j] < it.index(),
                forall|j: int, l: int| 0 <= j < l < idx.len() ==> idx[j] < idx[l],
                forall|j: int|
                    0 <= j < ausentes.len() ==> {
                        &&& (#[trigger] ausentes[j]).id_repartidor.clave_spec()
                            == *it.seq()[idx[j]].0
                        &&& ausente(*it.seq()[idx[j]].1, ahora)
                        &&& ausentes[j] == vista.informe_de_ausente(ausentes[j].id_repartidor)
                    },
                forall|i: int|
                    0 <= i < it.index() && ausente(*(#[trigger] it.seq()[i]).1, ahora)
                        ==> exists|j: int| 0 <= j < idx.len() && idx[j] == i,
        {
            let (k, e) = par;
            let ghost i0 = it.index();
            let ghost idx0 = idx;
            if e.estado == EstadoRepartidor::Waiting && transcurrido(ahora, e.time_stamp)
                > ESPERA_MAXIMA_REPARTIDOR_MS {
                assert(reps.contains_key(*k) && reps[*k] == *e);
                let id_repartidor = Direccion::de_clave(*k);
                let id_comensal = e.id_actual_comensal;
                let enviador_comensal = match id_comensal {
                    Some(c) => match self.comensales.get(&c.clave()) {
                        Some(x) => x.enviador_comensal,
                        None => None,
                    },
                    None => None,
                };
                let informe = RepartidorAusente { id_repartidor, id_comensal, enviador_comensal };
                assert(vista.repartidores.contains_key(id_repartidor));
                assert(informe == vista.informe_de_ausente(id_repartidor));
                ausentes.push(informe);
                proof {
                    idx = idx.push(i0);
                }
            }
            proof {
                assert forall|i: int|
                    0 <= i < i0 + 1 && ausente(*(#[trigger] it.seq()[i]).1, ahora) implies exists|
                    j: int,
                | 0 <= j < idx.len() && idx[j] == i by {
                    if i == i0 {
                        assert(idx[idx.len() - 1] == i0);
                    } else {
                        let j = choose|j: int| 0 <= j < idx0.len() && idx0[j] == i;
                        assert(idx[j] == i);
                    }
                }
            }
        }
        let ghost pares = self.repartidores_posta.iter().remaining();
        proof {
            assert forall|i: int, j: int| 0 <= i < j < ausentes.len() implies ausentes[i].id_repartidor
                != ausentes[j].id_repartidor by {
                let a = pares[idx[i]];
                let b = pares[idx[j]];
                assert(reps.contains_key(*a.0) && reps[*a.0] == *a.1);
                assert(reps.contains_key(*b.0) && reps[*b.0] == *b.1);
                if *a.0 == *b.0 {
                    assert(a == b);
                }
            }
            assert forall|d: Direccion| #[trigger] vista.ausentes(ahora).contains(d) implies exists|
                i: int,
            | 0 <= i < ausentes.len() && ausentes[i].id_repartidor == d by {
                let k = d.clave_spec();
                assert(reps.contains_key(k));
                assert(pares.contains((&k, &reps[k])));
                let i = choose|i: int| 0 <= i < pares.len() && pares[i] == (&k, &reps[k]);
                assert(ausente(*pares[i].1, ahora));
                let j = choose|j: int| 0 <= j < idx.len() && idx[j] == i;
                lema_clave_inyectiva(ausentes[j].id_repartidor, d);
            }
            assert forall|i: int| 0 <= i < ausentes.len() implies #[trigger] vista.ausentes(
                ahora,
            ).contains(ausentes[i].id_repartidor) by {
                let a = pares[idx[i]];
                assert(reps.contains_key(*a.0) && reps[*a.0] == *a.1);
            }
        }
        let (mut comensales, mut repartidores_posta, restaurantes) = self.abrir();
        let mut n: usize = 0;
        while n < ausentes.len()
            invariant
                n <= ausentes.len(),
                claves_validas(comensales@),
                claves_validas(repartidores_posta@),
                forall|k: u64| #[trigger]
                    repartidores_posta@.contains_key(k) ==> repartidores_posta@[k].coherente(),
                forall|k: u64|
                    repartidores_posta@.contains_key(k) <==> reps.contains_key(k)
                        && !repartidor_marcado(ausentes@, n as int, k),
                forall|k: u64|
                    repartidores_posta@.contains_key(k) ==> repartidores_posta@[k]
                        == reps[k],
                forall|k: u64|
                    comensales@.contains_key(k) <==> coms.contains_key(k) && !comensal_marcado(
                        ausentes@,
                        n as int,
                        k,
                    ),
                forall|k: u64| comensales@.contains_key(k) ==> comensales@[k] == coms[k],
            decreases ausentes.len() - n,
        {
            let informe = ausentes[n];
            let ghost reps_bucle = repartidores_posta@;
            let ghost coms_bucle = comensales@;
            let kr = informe.id_repartidor.clave();
            repartidores_posta.remove(&kr);
            match informe.id_comensal {
                Some(c) => {
                    let kc = c.clave();
                    comensales.remove(&kc);
                },
                None => {},
            }
            let ghost reps_antes = reps_bucle;
            let ghost coms_antes = coms_bucle;
            let ghost n0 = n as int;
            n = n + 1;
            proof {
                assert forall|k: u64|
                    repartidores_posta@.contains_key(k) <==> reps.contains_key(k)
                        && !repartidor_marcado(ausentes@, n as int, k) by {
                    lema_repartidor_marcado(ausentes@, n0, k);
                    assert(reps_antes.contains_key(k) <==> reps.contains_key(k) && !repartidor_marcado(ausentes@, n0, k));
                    assert(repartidores_posta@.contains_key(k) <==> reps_antes.contains_key(k)
                        && k != kr);
                }
                assert forall|k: u64|
                    comensales@.contains_key(k) <==> coms.contains_key(k) && !comensal_marcado(
                        ausentes@,
                        n as int,
                        k,
                    ) by {
                    lema_comensal_marcado(ausentes@, n0, k);
                    assert(coms_antes.contains_key(k) <==> coms.contains_key(k) && !comensal_marcado(ausentes@, n0, k));
                    assert(comensales@.contains_key(k) <==> coms_antes.contains_key(k) && !(
                    informe.id_comensal is Some && informe.id_comensal->0.clave_spec() == k));
                }
            }
        }
        *self = Almacenamiento { comensales, repartidores_posta, restaurantes };
        proof {
            let fin = self@;
            let esperado = vista.borrar_repartidores_ausentes(ahora);
            assert forall|d: Direccion| fin.repartidores.contains_key(d)
                <==> esperado.repartidores.contains_key(d) by {
                let k = d.clave_spec();
                if vista.ausentes(ahora).contains(d) {
                    let i = choose|i: int| 0 <= i < ausentes.len() && ausentes[i].id_repartidor == d;
                    assert(ausentes@[i].id_repartidor.clave_spec() == k);
                    assert(repartidor_marcado(ausentes@, n as int, k));
                }
                if repartidor_marcado(ausentes@, n as int, k) {
                    let i = choose|i: int|
                        0 <= i < n && (#[trigger] ausentes@[i]).id_repartidor.clave_spec() == k;
                    lema_clave_inyectiva(ausentes[i].id_repartidor, d);
                    assert(vista.ausentes(ahora).contains(ausentes[i].id_repartidor));
                }
            }
            assert(fin.repartidores =~= esperado.repartidores);
            assert forall|c: Direccion| fin.comensales.contains_key(c)
                <==> esperado.comensales.contains_key(c) by {
                let k = c.clave_spec();
                if vista.comensales_de_ausentes(ahora).contains(c) {
                    let d = choose|d: Direccion| #[trigger]
                        vista.ausentes(ahora).contains(d) && vista.repartidores[d].id_actual_comensal
                            == Some(c);
                    let i = choose|i: int| 0 <= i < ausentes.len() && ausentes[i].id_repartidor == d;
                    assert(ausentes@[i].id_comensal == Some(c));
                    assert(comensal_marcado(ausentes@, n as int, k));
                }
                if comensal_marcado(ausentes@, n as int, k) {
                    let i = choose|i: int|
                        0 <= i < n && (#[trigger] ausentes@[i]).id_comensal is Some
                            && ausentes@[i].id_comensal->0.clave_spec() == k;
                    lema_clave_inyectiva(ausentes[i].id_comensal->0, c);
                    assert(vista.ausentes(ahora).contains(ausentes[i].id_repartidor));
                    assert(vista.comensales_de_ausentes(ahora).contains(c));
                }
            }
            assert(fin.comensales =~= esperado.comensales);
            assert(fin.restaurantes =~= esperado.restaurantes);
            lema_vista_bien_formada(*self);
        }
        ausentes
    }
}

/// One of the first `n` reports names the courier with key `k`.
spec fn repartidor_marcado(s: Seq<RepartidorAusente>, n: int, k: u64) -> bool {
    exists|i: int| 0 <= i < n && (#[trigger] s[i]).id_repartidor.clave_spec() == k
}

/// One of the first `n` reports names the diner with key `k`.
spec fn comensal_marcado(s: Seq<RepartidorAusente>, n: int, k: u64) -> bool {
    exists|i: int|
        0 <= i < n && (#[trigger] s[i]).id_comensal is Some && s[i].id_comensal->0.clave_spec()
            == k
}

proof fn lema_repartidor_marcado(s: Seq<RepartidorAusente>, n: int, k: u64)
    requires
        0 <= n < s.len(),
    ensures
        repartidor_marcado(s, n + 1, k) <==> repartidor_marcado(s, n, k)
            || s[n].id_repartidor.clave_spec() == k,
{
    if repartidor_marcado(s, n, k) {
        let i = choose|i: int| 0 <= i < n && (#[trigger] s[i]).id_repartidor.clave_spec() == k;
        assert(0 <= i < n + 1 && s[i].id_repartidor.clave_spec() == k);
    }
    if s[n].id_repartidor.clave_spec() == k {
        assert(0 <= n < n + 1 && s[n].id_repartidor.clave_spec() == k);
    }
}

proof fn lema_comensal_marcado(s: Seq<RepartidorAusente>, n: int, k: u64)
    requires
        0 <= n < s.len(),
    ensures
        comensal_marcado(s, n + 1, k) <==> comensal_marcado(s, n, k) || (s[n].id_comensal is Some
            && s[n].id_comensal->0.clave_spec() == k),
{
    if comensal_marcado(s, n, k) {
        let i = choose|i: int|
            0 <= i < n && (#[trigger] s[i]).id_comensal is Some && s[i].id_comensal->0.clave_spec()
                == k;
        assert(0 <= i < n + 1 && s[i].id_comensal is Some && s[i].id_comensal->0.clave_spec()
            == k);
    }
    if s[n].id_comensal is Some && s[n].id_comensal->0.clave_spec() == k {
        assert(0 <= n < n + 1 && s[n].id_comensal is Some);
    }
}

impl VistaAlmacenamiento {
    /// What a message does to the store and what it is answered with, when
    /// it is taken at `ahora`: `w` is the store afterwards, `r` the answer.
    pub open spec fn handle_post(
        self,
        msg: MensajeAlmacenamiento,
        ahora: Instante,
        w: VistaAlmacenamiento,
        r: RespuestaAlmacenamiento,
    ) -> bool {
        match msg {
            MensajeAlmacenamiento::InsertarRepartidor(m) => w == self.insertar_repartidor(m) && r
                == RespuestaAlmacenamiento::Hecho,
            MensajeAlmacenamiento::InsertarComensal(m) => w == self.insertar_comensal(m) && r
                == RespuestaAlmacenamiento::Hecho,
            MensajeAlmacenamiento::InsertarRestaurante(m) => w == self.insertar_restaurante(m) && r
                == RespuestaAlmacenamiento::Hecho,
            MensajeAlmacenamiento::ObtenerComensal(m) => w == self && r
                == RespuestaAlmacenamiento::Comensal(self.comensales.get(m.id)),
            MensajeAlmacenamiento::ObtenerRepartidor(m) => w == self && r
                == RespuestaAlmacenamiento::Repartidor(self.repartidores.get(m.id)),
            MensajeAlmacenamiento::ActualizarRepartidor(m) => w == self.actualizar_repartidor(m)
                && r == RespuestaAlmacenamiento::Hecho,
            MensajeAlmacenamiento::ActualizarComensalUbicacionRestaurante(m) => w
                == self.actualizar_comensal_ubicacion_restaurante(m) && r
                == RespuestaAlmacenamiento::Hecho,
            MensajeAlmacenamiento::BorrarRepartidor(m) => w == self.borrar_repartidor(m) && r
                == RespuestaAlmacenamiento::Hecho,
            MensajeAlmacenamiento::BorrarComensal(m) => w == self.borrar_comensal(m) && r
                == RespuestaAlmacenamiento::Hecho,
            MensajeAlmacenamiento::BorrarRestaurante(m) => w == self.borrar_restaurante(m) && r
                == RespuestaAlmacenamiento::Hecho,
            MensajeAlmacenamiento::ObtenerRepartidorCercano(_) => w == self && (r
                matches RespuestaAlmacenamiento::Cercano(c) && self.es_repartidor_cercano(c)),
            MensajeAlmacenamiento::FinalizarViaje(m) => w == self.finalizar_viaje(m, ahora) && r
                == RespuestaAlmacenamiento::Hecho,
            MensajeAlmacenamiento::Finalizado(m) => w == self && r
                == RespuestaAlmacenamiento::Finalizado(self.finalizado(m.id_comensal)),
            MensajeAlmacenamiento::BorrarRepartidoresAusentes(_) => w
                == self.borrar_repartidores_ausentes(ahora) && (r
                matches RespuestaAlmacenamiento::Ausentes(a) && self.informa(ahora, a@)),
            MensajeAlmacenamiento::QuieroPedidoSoyComensal(m) => w == self && (r
                matches RespuestaAlmacenamiento::Restaurante(e) && self.es_restaurante_cercano(
                m.ubicacion_comensal,
                e,
            )),
            MensajeAlmacenamiento::HayRecursosDisponibles(_) => w == self && r
                == RespuestaAlmacenamiento::Recursos(self.hay_recursos()),
        }
    }
}

impl Almacenamiento {
    /// Takes one message of the store's mailbox, at `ahora`, and answers
    /// it.
    pub fn handle(&mut self, msg: MensajeAlmacenamiento, ahora: Instante) -> (r:
        RespuestaAlmacenamiento)
        ensures
            final(self)@.bien_formada(),
            old(self)@.handle_post(msg, ahora, final(self)@, r),
    {
        match msg {
            MensajeAlmacenamiento::InsertarRepartidor(m) => {
                self.insertar_repartidor(m);
                RespuestaAlmacenamiento::Hecho
            },
            MensajeAlmacenamiento::InsertarComensal(m) => {
                self.insertar_comensal(m);
                RespuestaAlmacenamiento::Hecho
            },
            MensajeAlmacenamiento::InsertarRestaurante(m) => {
                self.insertar_restaurante(m);
                RespuestaAlmacenamiento::Hecho
            },
            MensajeAlmacenamiento::ObtenerComensal(m) => RespuestaAlmacenamiento::Comensal(
                self.obtener_comensal(m),
            ),
            MensajeAlmacenamiento::ObtenerRepartidor(m) => RespuestaAlmacenamiento::Repartidor(
                self.obtener_repartidor(m),
            ),
            MensajeAlmacenamiento::ActualizarRepartidor(m) => {
                self.actualizar_repartidor(m);
                RespuestaAlmacenamiento::Hecho
            },
            MensajeAlmacenamiento::ActualizarComensalUbicacionRestaurante(m) => {
                self.actualizar_comensal_ubicacion_restaurante(m);
                RespuestaAlmacenamiento::Hecho
            },
            MensajeAlmacenamiento::BorrarRepartidor(m) => {
                self.borrar_repartidor(m);
                RespuestaAlmacenamiento::Hecho
            },
            MensajeAlmacenamiento::BorrarComensal(m) => {
                self.borrar_comensal(m);
                RespuestaAlmacenamiento::Hecho
            },
            MensajeAlmacenamiento::BorrarRestaurante(m) => {
                self.borrar_restaurante(m);
                RespuestaAlmacenamiento::Hecho
            },
            MensajeAlmacenamiento::ObtenerRepartidorCercano(m) => RespuestaAlmacenamiento::Cercano(
                self.obtener_repartidor_cercano(m),
            ),
            MensajeAlmacenamiento::FinalizarViaje(m) => {
                self.finalizar_viaje(m, ahora);
                RespuestaAlmacenamiento::Hecho
            },
            MensajeAlmacenamiento::Finalizado(m) => RespuestaAlmacenamiento::Finalizado(
                self.finalizado(m),
            ),
            MensajeAlmacenamiento::BorrarRepartidoresAusentes(m) => RespuestaAlmacenamiento::Ausentes(
                self.borrar_repartidores_ausentes(m, ahora),
            ),
            MensajeAlmacenamiento::QuieroPedidoSoyComensal(m) => RespuestaAlmacenamiento::Restaurante(
                self.quiero_pedido_soy_comensal(m),
            ),
            MensajeAlmacenamiento::HayRecursosDisponibles(m) => RespuestaAlmacenamiento::Recursos(
                self.hay_recursos_disponibles(m),
            ),
        }
    }
}

/// Reading a map with valid keys by address keeps the number of its
/// entries.
pub proof fn lema_misma_cantidad<V>(m: Map<u64, V>)
    requires
        m.dom().finite(),
        claves_validas(m),
    ensures
        por_direccion(m).dom().len() == m.dom().len(),
        por_direccion(m).dom().finite(),
{
    let f = |k: u64| Direccion::de_clave_spec(k);
    assert forall|a: u64, b: u64|
        m.dom().contains(a) && m.dom().contains(b) && f(a) == f(b) implies a == b by {
        lema_de_clave(a);
        lema_de_clave(b);
    }
    vstd::set_lib::lemma_map_size(m.dom(), m.dom().map(f), f);
    assert(m.dom().map(f) =~= por_direccion(m).dom()) by {
        assert forall|d: Direccion|
            m.dom().map(f).contains(d) <==> por_direccion(m).dom().contains(d) by {
            if m.dom().map(f).contains(d) {
                let k = choose|k: u64| m.dom().contains(k) && d == f(k);
                lema_de_clave(k);
            }
            if por_direccion(m).dom().contains(d) {
                lema_clave_inyectiva(d, d);
                assert(m.dom().contains(d.clave_spec()) && f(d.clave_spec()) == d);
            }
        }
    }
    m.dom().lemma_map_finite(f);
}

} // verus!
