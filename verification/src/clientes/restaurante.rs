use crate::almacenamiento::handlers_almacenamiento::{transcurrido, transcurrido_spec};
use crate::common::mensajes::{
    MensajeIdentidad, Posicion, RecibirPedido, RespuestaOfertaViaje, SolicitarRepartidor,
};
use crate::direccion::Direccion;
use crate::eleccion::eleccion::contiene;
use crate::utils::diccionario::Diccionario;
use crate::utils::entidades::Instante;
use vstd::prelude::*;

verus! {

/// Milliseconds that a dish rests before it is cooked again.
pub const DESCANSO_COCINA_MS: u64 = 5000;

/// A restaurant: where it stands, whom it has served, and when it last
/// cooked each dish.
#[derive(Debug)]
pub struct Restaurante {
    pub ubicacion_fija: Posicion,
    pub clientes_atendidos: Vec<Direccion>,
    pub ultima_cocina: Diccionario<Instante>,
}

/// What a restaurant sends for an order that it considers: its verdict, and
/// the request for a courier that carries the verdict too.
#[derive(Debug, PartialEq, Eq)]
pub struct Veredicto {
    pub respuesta: RespuestaOfertaViaje,
    pub solicitud: SolicitarRepartidor,
}

impl Restaurante {
    /// Whether the dish was cooked less than the resting time ago.
    pub open spec fn en_descanso(&self, comida: Seq<char>, ahora: Instante) -> bool {
        self.ultima_cocina@.contains_key(comida) && transcurrido_spec(
            ahora,
            self.ultima_cocina@[comida],
        ) < DESCANSO_COCINA_MS
    }

    /// A restaurant that has served nobody and cooked nothing yet.
    pub fn new(ubicacion_fija: Posicion) -> (r: Restaurante)
        ensures
            r.ubicacion_fija == ubicacion_fija,
            r.clientes_atendidos@ == Seq::<Direccion>::empty(),
            r.ultima_cocina@ == Map::<Seq<char>, Instante>::empty(),
    {
        Restaurante {
            ubicacion_fija,
            clientes_atendidos: Vec::new(),
            ultima_cocina: Diccionario::new(),
        }
    }

    /// The announcement of who the restaurant is and where it stands.
    pub fn enviar_posicion(&self) -> (r: MensajeIdentidad)
        ensures
            r == (MensajeIdentidad {
                ubicacion: self.ubicacion_fija.posicion,
                soy_repartidor: false,
            }),
    {
        MensajeIdentidad { ubicacion: self.ubicacion_fija.posicion, soy_repartidor: false }
    }

    /// Considers an order. An order for a dish that rests is dropped.
    /// Otherwise the dish counts as cooked at `ahora`; and unless the diner
    /// has been served before, the diner counts as served and the verdict
    /// `esta_aceptado` goes out, once as the answer to the offer and once
    /// with the request for a courier.
    pub fn handle_recibir_pedido(
        &mut self,
        msj: RecibirPedido,
        ahora: Instante,
        esta_aceptado: bool,
    ) -> (r: Option<Veredicto>)
        ensures
            final(self).ubicacion_fija == old(self).ubicacion_fija,
            old(self).en_descanso(msj.comida@, ahora) ==> {
                &&& r is None
                &&& final(self).clientes_atendidos@ == old(self).clientes_atendidos@
                &&& final(self).ultima_cocina@ == old(self).ultima_cocina@
            },
            !old(self).en_descanso(msj.comida@, ahora) ==> final(self).ultima_cocina@ == old(
                self,
            ).ultima_cocina@.insert(msj.comida@, ahora),
            !old(self).en_descanso(msj.comida@, ahora) && old(self).clientes_atendidos@.contains(
                msj.direccion_comensal_o,
            ) ==> {
                &&& r is None
                &&& final(self).clientes_atendidos@ == old(self).clientes_atendidos@
            },
            !old(self).en_descanso(msj.comida@, ahora) && !old(self).clientes_atendidos@.contains(
                msj.direccion_comensal_o,
            ) ==> {
                &&& final(self).clientes_atendidos@ == old(self).clientes_atendidos@.push(
                    msj.direccion_comensal_o,
                )
                &&& r matches Some(v)
                &&& v.respuesta == (RespuestaOfertaViaje {
                    direccion_comensal_r: msj.direccion_comensal_o,
                    esta_aceptado,
                })
                &&& v.solicitud.comida@ == msj.comida@
                &&& v.solicitud.origen == old(self).ubicacion_fija.posicion
                &&& v.solicitud.destino == msj.ubicacion_comensal
                &&& v.solicitud.pedido_aceptado == esta_aceptado
                &&& v.solicitud.direccion_comensal == msj.direccion_comensal_o
            },
    {
        let descansa = match self.ultima_cocina.get(msj.comida.as_str()) {
            Some(momento) => transcurrido(ahora, *momento) < DESCANSO_COCINA_MS,
            None => false,
        };
        if descansa {
            return None;
        }
        self.ultima_cocina.insert(msj.comida.clone(), ahora);
        if contiene(&self.clientes_atendidos, msj.direccion_comensal_o) {
            return None;
        }
        self.clientes_atendidos.push(msj.direccion_comensal_o);
        Some(
            Veredicto {
                respuesta: RespuestaOfertaViaje {
                    direccion_comensal_r: msj.direccion_comensal_o,
                    esta_aceptado,
                },
                solicitud: SolicitarRepartidor {
                    comida: msj.comida,
                    origen: self.ubicacion_fija.posicion,
                    destino: msj.ubicacion_comensal,
                    pedido_aceptado: esta_aceptado,
                    direccion_comensal: msj.direccion_comensal_o,
                },
            },
        )
    }
}

} // verus!
