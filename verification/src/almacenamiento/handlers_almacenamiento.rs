use crate::almacenamiento::almacenamiento::VistaAlmacenamiento;
use crate::almacenamiento::mensajes_almacenamiento::{
    ActualizarComensalUbicacionRestaurante, ActualizarRepartidor, BorrarComensal, BorrarRepartidor,
    BorrarRestaurante,
    InsertarComensal, InsertarRepartidor, InsertarRestaurante, RepartidorAusente,
};
use crate::common::mensajes::FinalizarViaje;
use crate::direccion::{distancia_cuadrada_spec, Coordenadas, Direccion};
use crate::utils::constantes::ESPERA_MAXIMA_REPARTIDOR_MS;
use crate::utils::entidades::{
    EntidadComensal, EntidadRepartidor, EntidadRestaurante, EstadoRepartidor, Instante,
};
use vstd::prelude::*;

verus! {

/// The state and assignment that are stored for a courier when a message asks
/// for `estado` and `asignado`: a free courier is assigned to nobody, and one
/// said to wait for nobody is free.
pub open spec fn normalizar_spec(estado: EstadoRepartidor, asignado: Option<Direccion>) -> (
    EstadoRepartidor,
    Option<Direccion>,
) {
    match estado {
        EstadoRepartidor::Active => (EstadoRepartidor::Active, None),
        EstadoRepartidor::Waiting => if asignado is Some {
            (EstadoRepartidor::Waiting, asignado)
        } else {
            (EstadoRepartidor::Active, None)
        },
        EstadoRepartidor::OnTrip => (EstadoRepartidor::OnTrip, asignado),
    }
}

/// Computes what `normalizar_spec` says.
#[verifier::when_used_as_spec(normalizar_spec)]
pub fn normalizar(estado: EstadoRepartidor, asignado: Option<Direccion>) -> (r: (
    EstadoRepartidor,
    Option<Direccion>,
))
    ensures
        r == normalizar_spec(estado, asignado),
{
    match estado {
        EstadoRepartidor::Active => (EstadoRepartidor::Active, None),
        EstadoRepartidor::Waiting => if asignado.is_some() {
            (EstadoRepartidor::Waiting, asignado)
        } else {
            (EstadoRepartidor::Active, None)
        },
        EstadoRepartidor::OnTrip => (EstadoRepartidor::OnTrip, asignado),
    }
}

/// Milliseconds from `desde` to `ahora`, zero where `ahora` is the earlier.
pub open spec fn transcurrido_spec(ahora: Instante, desde: Instante) -> u64 {
    if ahora >= desde {
        (ahora - desde) as u64
    } else {
        0
    }
}

/// Computes what `transcurrido_spec` says.
#[verifier::when_used_as_spec(transcurrido_spec)]
pub fn transcurrido(ahora: Instante, desde: Instante) -> (t: u64)
    ensures
        t == transcurrido_spec(ahora, desde),
{
    if ahora >= desde {
        ahora - desde
    } else {
        0
    }
}

/// A courier is stalled once it has been waiting for strictly more than the
/// allowed time.
pub open spec fn ausente(r: EntidadRepartidor, ahora: Instante) -> bool {
    r.estado == EstadoRepartidor::Waiting && transcurrido_spec(ahora, r.time_stamp)
        > ESPERA_MAXIMA_REPARTIDOR_MS
}

impl VistaAlmacenamiento {
    /// The courier entry that an insertion leaves behind: a known courier
    /// keeps its writer and, unless it becomes free, its assignment.
    pub open spec fn repartidor_tras_insertar(self, msj: InsertarRepartidor) -> EntidadRepartidor {
        if self.repartidores.contains_key(msj.id) {
            let previo = self.repartidores[msj.id];
            let n = normalizar_spec(msj.estado, previo.id_actual_comensal);
            EntidadRepartidor {
                posicion_repartidor: msj.posicion_restaurante,
                id_actual_comensal: n.1,
                restaurante_sender: previo.restaurante_sender,
                estado: n.0,
                time_stamp: msj.time_stamp,
            }
        } else {
            let n = normalizar_spec(msj.estado, msj.id_comensal_actual);
            EntidadRepartidor {
                posicion_repartidor: msj.posicion_restaurante,
                id_actual_comensal: n.1,
                restaurante_sender: msj.enviador_repartidor,
                estado: n.0,
                time_stamp: msj.time_stamp,
            }
        }
    }

    /// The store after a courier was inserted or refreshed.
    pub open spec fn insertar_repartidor(self, msj: InsertarRepartidor) -> VistaAlmacenamiento {
        VistaAlmacenamiento {
            repartidores: self.repartidores.insert(msj.id, self.repartidor_tras_insertar(msj)),
            ..self
        }
    }

    /// The store after a diner was recorded, replacing what was known of it.
    pub open spec fn insertar_comensal(self, msj: InsertarComensal) -> VistaAlmacenamiento {
        VistaAlmacenamiento {
            comensales: self.comensales.insert(
                msj.id,
                EntidadComensal {
                    posicion_comensal: msj.posicion_restaurante_del_pedido,
                    destino_comensal: msj.ubicacion_comensal,
                    enviador_comensal: msj.enviador_comensal,
                },
            ),
            ..self
        }
    }

    /// The restaurant entry that an insertion leaves behind: a known
    /// restaurant keeps its writer.
    pub open spec fn restaurante_tras_insertar(
        self,
        msj: InsertarRestaurante,
    ) -> EntidadRestaurante {
        EntidadRestaurante {
            posicion_restaurante: msj.posicion_repartidor,
            repartidor_sender: if self.restaurantes.contains_key(msj.id) {
                self.restaurantes[msj.id].repartidor_sender
            } else {
                msj.enviador_repartidor
            },
            estado: msj.estado,
            time_stamp: msj.time_stamp,
        }
    }

    /// The store after a restaurant was inserted or refreshed.
    pub open spec fn insertar_restaurante(self, msj: InsertarRestaurante) -> VistaAlmacenamiento {
        VistaAlmacenamiento {
            restaurantes: self.restaurantes.insert(msj.id, self.restaurante_tras_insertar(msj)),
            ..self
        }
    }

    /// Updating a courier that is not known changes nothing.
    pub open spec fn actualizar_repartidor(self, msj: ActualizarRepartidor) -> VistaAlmacenamiento {
        if self.repartidores.contains_key(msj.id_repartidor) {
            let previo = self.repartidores[msj.id_repartidor];
            let n = normalizar_spec(msj.estado, msj.id_comensal);
            VistaAlmacenamiento {
                repartidores: self.repartidores.insert(
                    msj.id_repartidor,
                    EntidadRepartidor {
                        id_actual_comensal: n.1,
                        estado: n.0,
                        time_stamp: msj.time_stamp,
                        ..previo
                    },
                ),
                ..self
            }
        } else {
            self
        }
    }

    /// Records where the order of a known diner is picked up.
    pub open spec fn actualizar_comensal_ubicacion_restaurante(
        self,
        msj: ActualizarComensalUbicacionRestaurante,
    ) -> VistaAlmacenamiento {
        if self.comensales.contains_key(msj.id_comensal) {
            VistaAlmacenamiento {
                comensales: self.comensales.insert(
                    msj.id_comensal,
                    EntidadComensal {
                        posicion_comensal: msj.nueva_ubicacion,
                        ..self.comensales[msj.id_comensal]
                    },
                ),
                ..self
            }
        } else {
            self
        }
    }

    /// The store without a courier.
    pub open spec fn borrar_repartidor(self, msj: BorrarRepartidor) -> VistaAlmacenamiento {
        VistaAlmacenamiento { repartidores: self.repartidores.remove(msj.id), ..self }
    }

    /// The store without a restaurant.
    pub open spec fn borrar_restaurante(self, msj: BorrarRestaurante) -> VistaAlmacenamiento {
        VistaAlmacenamiento { restaurantes: self.restaurantes.remove(msj.id), ..self }
    }

    /// The store without a diner.
    pub open spec fn borrar_comensal(self, msj: BorrarComensal) -> VistaAlmacenamiento {
        VistaAlmacenamiento { comensales: self.comensales.remove(msj.id), ..self }
    }

    /// A finished delivery frees its courier, at the destination and as of
    /// `ahora`, and removes its diner.
    pub open spec fn finalizar_viaje(
        self,
        msj: FinalizarViaje,
        ahora: Instante,
    ) -> VistaAlmacenamiento {
        VistaAlmacenamiento {
            comensales: self.comensales.remove(msj.direccion_comensal_f),
            repartidores: if self.repartidores.contains_key(msj.direccion_conductor_f) {
                self.repartidores.insert(
                    msj.direccion_conductor_f,
                    EntidadRepartidor {
                        posicion_repartidor: msj.pos_destino,
                        id_actual_comensal: None,
                        estado: EstadoRepartidor::Active,
                        time_stamp: ahora,
                        ..self.repartidores[msj.direccion_conductor_f]
                    },
                )
            } else {
                self.repartidores
            },
            ..self
        }
    }

    /// A diner has finished once the store no longer holds it.
    pub open spec fn finalizado(self, id_comensal: Direccion) -> bool {
        !self.comensales.contains_key(id_comensal)
    }

    /// `r` is a free courier and none that is free stands nearer to the
    /// origin of the map; `None` says that no courier is free.
    pub open spec fn es_repartidor_cercano(self, r: Option<Direccion>) -> bool {
        match r {
            Some(d) => {
                &&& self.repartidores.contains_key(d)
                &&& self.repartidores[d].estado == EstadoRepartidor::Active
                &&& forall|o: Direccion| #[trigger]
                    self.repartidores.contains_key(o) && self.repartidores[o].estado
                        == EstadoRepartidor::Active ==> distancia_al_origen(
                        self.repartidores[d].posicion_repartidor,
                    ) <= distancia_al_origen(self.repartidores[o].posicion_repartidor)
            },
            None => forall|o: Direccion| #[trigger]
                self.repartidores.contains_key(o) ==> self.repartidores[o].estado
                    != EstadoRepartidor::Active,
        }
    }

    /// `r` is an open restaurant and none that is open stands nearer to
    /// `pos`; `None` says that no restaurant is open.
    pub open spec fn es_restaurante_cercano(
        self,
        pos: Coordenadas,
        r: Option<EntidadRestaurante>,
    ) -> bool {
        match r {
            Some(e) => {
                &&& exists|d: Direccion| #[trigger]
                    self.restaurantes.contains_key(d) && self.restaurantes[d] == e
                &&& e.estado == EstadoRepartidor::Active
                &&& forall|o: Direccion| #[trigger]
                    self.restaurantes.contains_key(o) && self.restaurantes[o].estado
                        == EstadoRepartidor::Active ==> distancia_cuadrada_spec(
                        e.posicion_restaurante,
                        pos,
                    ) <= distancia_cuadrada_spec(self.restaurantes[o].posicion_restaurante, pos)
            },
            None => forall|o: Direccion| #[trigger]
                self.restaurantes.contains_key(o) ==> self.restaurantes[o].estado
                    != EstadoRepartidor::Active,
        }
    }

    /// Some courier is assigned to the diner: it waits for the diner's
    /// answer or is on its way to the diner.
    pub open spec fn tiene_repartidor(self, comensal: Direccion) -> bool {
        exists|r: Direccion| #[trigger]
            self.repartidores.contains_key(r) && self.repartidores[r].id_actual_comensal == Some(
                comensal,
            )
    }

    /// No diner is assigned to two couriers.
    pub open spec fn asignaciones_unicas(self) -> bool {
        forall|a: Direccion, b: Direccion|
            #![trigger self.repartidores[a], self.repartidores[b]]
            self.repartidores.contains_key(a) && self.repartidores.contains_key(b)
                && self.repartidores[a].id_actual_comensal is Some
                && self.repartidores[a].id_actual_comensal == self.repartidores[b].id_actual_comensal
                ==> a == b
    }

    /// The couriers that a scan at `ahora` finds stalled.
    pub open spec fn ausentes(self, ahora: Instante) -> Set<Direccion> {
        Set::new(
            |d: Direccion| self.repartidores.contains_key(d) && ausente(self.repartidores[d], ahora),
        )
    }

    /// The diners that the stalled couriers hold up.
    pub open spec fn comensales_de_ausentes(self, ahora: Instante) -> Set<Direccion> {
        Set::new(
            |c: Direccion|
                exists|d: Direccion| #[trigger]
                    self.ausentes(ahora).contains(d) && self.repartidores[d].id_actual_comensal
                        == Some(c),
        )
    }

    /// What the reaper reports of the stalled courier `d`.
    pub open spec fn informe_de_ausente(self, d: Direccion) -> RepartidorAusente {
        let id_comensal = self.repartidores[d].id_actual_comensal;
        RepartidorAusente {
            id_repartidor: d,
            id_comensal,
            enviador_comensal: if id_comensal is Some && self.comensales.contains_key(
                id_comensal->0,
            ) {
                self.comensales[id_comensal->0].enviador_comensal
            } else {
                None
            },
        }
    }

    /// `informes` reports the couriers that a scan at `ahora` finds stalled:
    /// each of them once, with the diner it held up and that diner's
    /// writer, and no other.
    pub open spec fn informa(self, ahora: Instante, informes: Seq<RepartidorAusente>) -> bool {
        &&& forall|i: int|
            0 <= i < informes.len() ==> #[trigger] self.ausentes(ahora).contains(
                informes[i].id_repartidor,
            ) && informes[i] == self.informe_de_ausente(informes[i].id_repartidor)
        &&& forall|d: Direccion| #[trigger]
            self.ausentes(ahora).contains(d) ==> exists|i: int|
                0 <= i < informes.len() && informes[i].id_repartidor == d
        &&& forall|i: int, j: int|
            0 <= i < j < informes.len() ==> informes[i].id_repartidor != informes[j].id_repartidor
    }

    /// The store after a scan at `ahora`: without the stalled couriers and
    /// without the diners they held up.
    pub open spec fn borrar_repartidores_ausentes(self, ahora: Instante) -> VistaAlmacenamiento {
        VistaAlmacenamiento {
            comensales: self.comensales.remove_keys(self.comensales_de_ausentes(ahora)),
            repartidores: self.repartidores.remove_keys(self.ausentes(ahora)),
            ..self
        }
    }
}

/// Square of the distance from `p` to the origin of the map.
pub open spec fn distancia_al_origen(p: Coordenadas) -> int {
    distancia_cuadrada_spec(p, Coordenadas { x: 0, y: 0 })
}

} // verus!
