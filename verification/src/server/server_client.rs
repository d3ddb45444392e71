use crate::almacenamiento::almacenamiento::{Almacenamiento, VistaAlmacenamiento};
use crate::almacenamiento::mensajes_almacenamiento::{
    ActualizarComensalUbicacionRestaurante, ActualizarRepartidor, Finalizado, ObtenerComensal,
    ObtenerRepartidor, QuieroPedidoSoyComensal,
};
use crate::common::mensajes::{
    FinalizarViaje, IniciarViajeDelivery, PedidoAlRestaurante, RecibirPedido,
    RespuestaOfertaViaje,
};
use crate::coordinador::mensajes_coordinador::{
    Accion, ActualizarComensales, ActualizarRepartidores, HandlePedido,
};
use crate::direccion::{Coordenadas, Direccion};
use crate::server::efectos::{Delta, Efecto, Linea, MotivoRechazo};
use crate::server::server::{baja_comensal, cambio_repartidor, rechazo, Server};
use crate::utils::entidades::{EntidadRestaurante, Enviador, EstadoRepartidor, Instante};
use vstd::prelude::*;

verus! {

/// The writer of a stored diner, if it has one.
pub open spec fn valor_de_comensal(v: VistaAlmacenamiento, d: Direccion) -> Option<Enviador> {
    if v.comensales.contains_key(d) {
        v.comensales[d].enviador_comensal
    } else {
        None
    }
}

/// The writer of a stored courier, if it has one.
pub open spec fn valor_de_repartidor(v: VistaAlmacenamiento, d: Direccion) -> Option<Enviador> {
    if v.repartidores.contains_key(d) {
        v.repartidores[d].restaurante_sender
    } else {
        None
    }
}

/// The final acknowledgement, once for each of the writers.
pub open spec fn acuses(destinatarios: Seq<Enviador>) -> Seq<Efecto>
    decreases destinatarios.len(),
{
    if destinatarios.len() == 0 {
        Seq::empty()
    } else {
        acuses(destinatarios.drop_last()).push(Efecto::Enviar(destinatarios.last(), Linea::AckFinal))
    }
}

/// Whether a writer is among those of a list.
pub fn tiene(v: &Vec<Enviador>, e: Enviador) -> (r: bool)
    ensures
        r == v@.contains(e),
{
    let mut i: usize = 0;
    while i < v.len()
        invariant
            i <= v.len(),
            forall|j: int| 0 <= j < i ==> v[j] != e,
        decreases v.len() - i,
    {
        if v[i] == e {
            return true;
        }
        i = i + 1;
    }
    false
}

impl Server {
    /// What offering an authorised order to a restaurant comes to. The
    /// order of a diner that is not stored is dropped. Without an open
    /// restaurant the diner is refused. Otherwise the open restaurant
    /// nearest to the diner is where the food is picked up, and it is
    /// offered the order if it can be written to.
    pub open spec fn pedido_al_restaurante_post(
        v: VistaAlmacenamiento,
        msg: PedidoAlRestaurante,
        w: VistaAlmacenamiento,
        efectos: Seq<Efecto>,
    ) -> bool {
        let comensal = msg.direccion_comensal_r;
        if !msg.esta_aceptado || !v.comensales.contains_key(comensal) {
            w == v && efectos == Seq::<Efecto>::empty()
        } else {
            exists|r: Option<EntidadRestaurante>|
                {
                    &&& #[trigger] v.es_restaurante_cercano(msg.posicion_comensal, r)
                    &&& match r {
                        None => (w, efectos) == rechazo(v, comensal, MotivoRechazo::SinRecursos),
                        Some(e) => {
                            &&& w == v.actualizar_comensal_ubicacion_restaurante(
                                ActualizarComensalUbicacionRestaurante {
                                    nueva_ubicacion: e.posicion_restaurante,
                                    id_comensal: comensal,
                                },
                            )
                            &&& efectos == match e.repartidor_sender {
                                Some(s) => seq![
                                    Efecto::Enviar(
                                        s,
                                        Linea::RecibirPedido(
                                            RecibirPedido {
                                                direccion_comensal_o: comensal,
                                                comida: msg.comida,
                                                ubicacion_comensal: msg.posicion_comensal,
                                            },
                                        ),
                                    ),
                                ],
                                None => Seq::<Efecto>::empty(),
                            }
                        },
                    }
                }
        }
    }

    /// Offers an authorised order to the nearest open restaurant.
    pub fn pedido_al_restaurante(
        &self,
        msg: PedidoAlRestaurante,
        almacenamiento: &mut Almacenamiento,
    ) -> (r: Vec<Efecto>)
        ensures
            final(almacenamiento)@.bien_formada(),
            Server::pedido_al_restaurante_post(
                old(almacenamiento)@,
                msg,
                final(almacenamiento)@,
                r@,
            ),
    {
        let comensal = msg.direccion_comensal_r;
        let conocido = !almacenamiento.finalizado(Finalizado { id_comensal: comensal });
        if !msg.esta_aceptado || !conocido {
            return Vec::new();
        }
        let cercano = almacenamiento.quiero_pedido_soy_comensal(
            QuieroPedidoSoyComensal { ubicacion_comensal: msg.posicion_comensal },
        );
        match cercano {
            None => Server::rechazar_pasajero(comensal, almacenamiento, MotivoRechazo::SinRecursos),
            Some(e) => {
                almacenamiento.actualizar_comensal_ubicacion_restaurante(
                    ActualizarComensalUbicacionRestaurante {
                        nueva_ubicacion: e.posicion_restaurante,
                        id_comensal: comensal,
                    },
                );
                let mut efectos: Vec<Efecto> = Vec::new();
                if let Some(s) = e.repartidor_sender {
                    efectos.push(
                        Efecto::Enviar(
                            s,
                            Linea::RecibirPedido(
                                RecibirPedido {
                                    direccion_comensal_o: comensal,
                                    comida: msg.comida,
                                    ubicacion_comensal: msg.posicion_comensal,
                                },
                            ),
                        ),
                    );
                }
                efectos
            },
        }
    }

    /// The writers that the end of a delivery is acknowledged to: that of
    /// the diner, that of the courier, and that of the session which
    /// reported the end, each of them once.
    pub open spec fn destinatarios_de_ack(
        &self,
        v: VistaAlmacenamiento,
        msg: FinalizarViaje,
    ) -> Seq<Enviador> {
        let al_comensal = match valor_de_comensal(v, msg.direccion_comensal_f) {
            Some(e) => seq![e],
            None => Seq::<Enviador>::empty(),
        };
        let al_repartidor = match valor_de_repartidor(v, msg.direccion_conductor_f) {
            Some(e) => if al_comensal.contains(e) {
                al_comensal
            } else {
                al_comensal.push(e)
            },
            None => al_comensal,
        };
        if al_repartidor.contains(self.tcp_enviador) {
            al_repartidor
        } else {
            al_repartidor.push(self.tcp_enviador)
        }
    }

    /// What the report of a finished delivery does. The report for a diner
    /// that is no longer stored, a second report among them, changes
    /// nothing and sends nothing. Otherwise the payment is captured, the
    /// delivery is acknowledged to diner, courier and reporter, the diner
    /// is forgotten, the courier is free again at the destination, and the
    /// followers are told.
    pub open spec fn finalizar_viaje_spec(
        &self,
        v: VistaAlmacenamiento,
        msg: FinalizarViaje,
        ahora: Instante,
    ) -> (
        VistaAlmacenamiento,
        Seq<Efecto>,
    ) {
        let comensal = msg.direccion_comensal_f;
        let repartidor = msg.direccion_conductor_f;
        if v.finalizado(comensal) {
            (v, Seq::<Efecto>::empty())
        } else {
            (
                v.finalizar_viaje(msg, ahora),
                seq![Efecto::Cobrar(comensal)] + acuses(self.destinatarios_de_ack(v, msg)) + seq![
                    Efecto::Difundir(
                        cambio_repartidor(
                            repartidor,
                            msg.pos_destino,
                            None,
                            EstadoRepartidor::Active,
                        ),
                    ),
                    Efecto::Difundir(baja_comensal(comensal)),
                ],
            )
        }
    }

    /// A courier or a diner reports that a delivery is finished.
    pub fn finalizar_viaje(
        &self,
        msg: FinalizarViaje,
        almacenamiento: &mut Almacenamiento,
        ahora: Instante,
    ) -> (r: Vec<Efecto>)
        ensures
            final(almacenamiento)@.bien_formada(),
            (final(almacenamiento)@, r@) == self.finalizar_viaje_spec(
                old(almacenamiento)@,
                msg,
                ahora,
            ),
    {
        let comensal = msg.direccion_comensal_f;
        let repartidor = msg.direccion_conductor_f;
        let mut efectos: Vec<Efecto> = Vec::new();
        let entidad = match almacenamiento.obtener_comensal(ObtenerComensal { id: comensal }) {
            Some(c) => c,
            None => {
                return efectos;
            },
        };
        let mut destinatarios: Vec<Enviador> = Vec::new();
        if let Some(e) = entidad.enviador_comensal {
            destinatarios.push(e);
        }
        if let Some(rep) = almacenamiento.obtener_repartidor(ObtenerRepartidor { id: repartidor }) {
            if let Some(e) = rep.restaurante_sender {
                if !tiene(&destinatarios, e) {
                    destinatarios.push(e);
                }
            }
        }
        if !tiene(&destinatarios, self.tcp_enviador) {
            destinatarios.push(self.tcp_enviador);
        }
        assert(destinatarios@ =~= self.destinatarios_de_ack(old(almacenamiento)@, msg));
        efectos.push(Efecto::Cobrar(comensal));
        let mut i: usize = 0;
        while i < destinatarios.len()
            invariant
                i <= destinatarios.len(),
                efectos@ == seq![Efecto::Cobrar(comensal)] + acuses(destinatarios@.take(i as int)),
            decreases destinatarios.len() - i,
        {
            efectos.push(Efecto::Enviar(destinatarios[i], Linea::AckFinal));
            proof {
                let t = destinatarios@.take(i + 1);
                assert(t.drop_last() =~= destinatarios@.take(i as int));
                assert(acuses(t) =~= acuses(destinatarios@.take(i as int)).push(
                    Efecto::Enviar(destinatarios[i as int], Linea::AckFinal),
                ));
            }
            i = i + 1;
        }
        proof {
            assert(destinatarios@.take(i as int) =~= destinatarios@);
        }
        almacenamiento.finalizar_viaje(msg, ahora);
        efectos.push(
            Efecto::Difundir(
                Delta::Repartidores(
                    ActualizarRepartidores {
                        accion: Accion::Actualizar,
                        repartidor,
                        posicion: msg.pos_destino,
                        id_comensal_actual: None,
                        status: EstadoRepartidor::Active,
                    },
                ),
            ),
        );
        efectos.push(
            Efecto::Difundir(
                Delta::Comensales(
                    ActualizarComensales {
                        accion: Accion::Eliminar,
                        comensal,
                        origen: Coordenadas { x: 0, y: 0 },
                        destino: Coordenadas { x: 0, y: 0 },
                    },
                ),
            ),
        );
        proof {
            assert(efectos@ =~= self.finalizar_viaje_spec(old(almacenamiento)@, msg, ahora).1);
        }
        efectos
    }

    /// The courier at the other end of this session has been offered the
    /// order of `comensal` and has not answered yet.
    pub open spec fn espera_respuesta(&self, v: VistaAlmacenamiento, comensal: Direccion) -> bool {
        &&& v.repartidores.contains_key(self.client_addr)
        &&& v.repartidores[self.client_addr].estado == EstadoRepartidor::Waiting
        &&& v.repartidores[self.client_addr].id_actual_comensal == Some(comensal)
    }

    /// What an answer to an offer does. An answer that no offer stands
    /// behind is dropped. A refusal frees the courier and has another one
    /// looked for. An acceptance puts the courier on its trip and starts the
    /// delivery for diner and courier alike, provided that the diner is
    /// stored and can be written to.
    pub open spec fn respuesta_oferta_viaje_spec(
        &self,
        v: VistaAlmacenamiento,
        msg: RespuestaOfertaViaje,
        ahora: Instante,
    ) -> (VistaAlmacenamiento, Seq<Efecto>) {
        let comensal = msg.direccion_comensal_r;
        let repartidor = self.client_addr;
        if !self.espera_respuesta(v, comensal) {
            (v, Seq::<Efecto>::empty())
        } else if !msg.esta_aceptado {
            (
                v.actualizar_repartidor(
                    ActualizarRepartidor {
                        id_repartidor: repartidor,
                        id_comensal: None,
                        estado: EstadoRepartidor::Active,
                        time_stamp: ahora,
                    },
                ),
                seq![
                    Efecto::Difundir(
                        cambio_repartidor(
                            repartidor,
                            v.repartidores[repartidor].posicion_repartidor,
                            None,
                            EstadoRepartidor::Active,
                        ),
                    ),
                    Efecto::ManejarPedido(HandlePedido { id_comensal_ht: comensal }),
                ],
            )
        } else if v.comensales.contains_key(comensal) && v.comensales[comensal].enviador_comensal
            is Some {
            let inicio = Linea::IniciarViajeDelivery(
                IniciarViajeDelivery {
                    direccion_comensal_i: comensal,
                    direccion_conductor_i: repartidor,
                    origen_i: v.comensales[comensal].posicion_comensal,
                    destino_i: v.comensales[comensal].destino_comensal,
                },
            );
            (
                v.actualizar_repartidor(
                    ActualizarRepartidor {
                        id_repartidor: repartidor,
                        id_comensal: Some(comensal),
                        estado: EstadoRepartidor::OnTrip,
                        time_stamp: ahora,
                    },
                ),
                seq![
                    Efecto::Enviar(v.comensales[comensal].enviador_comensal->0, inicio),
                    Efecto::Enviar(self.tcp_enviador, inicio),
                    Efecto::Difundir(
                        cambio_repartidor(
                            repartidor,
                            v.repartidores[repartidor].posicion_repartidor,
                            Some(comensal),
                            EstadoRepartidor::OnTrip,
                        ),
                    ),
                ],
            )
        } else {
            (v, Seq::<Efecto>::empty())
        }
    }

    /// A courier answers an offer.
    pub fn respuesta_oferta_viaje(
        &self,
        msg: RespuestaOfertaViaje,
        almacenamiento: &mut Almacenamiento,
        ahora: Instante,
    ) -> (r: Vec<Efecto>)
        ensures
            final(almacenamiento)@.bien_formada(),
            (final(almacenamiento)@, r@) == self.respuesta_oferta_viaje_spec(
                old(almacenamiento)@,
                msg,
                ahora,
            ),
    {
        let comensal = msg.direccion_comensal_r;
        let repartidor = self.client_addr;
        let mut efectos: Vec<Efecto> = Vec::new();
        let entidad = match almacenamiento.obtener_repartidor(ObtenerRepartidor { id: repartidor }) {
            Some(e) => e,
            None => {
                return efectos;
            },
        };
        let esperado = match entidad.id_actual_comensal {
            Some(c) => c == comensal,
            None => false,
        };
        if entidad.estado != EstadoRepartidor::Waiting || !esperado {
            return efectos;
        }
        if !msg.esta_aceptado {
            almacenamiento.actualizar_repartidor(
                ActualizarRepartidor {
                    id_repartidor: repartidor,
                    id_comensal: None,
                    estado: EstadoRepartidor::Active,
                    time_stamp: ahora,
                },
            );
            efectos.push(
                Efecto::Difundir(
                    Delta::Repartidores(
                        ActualizarRepartidores {
                            accion: Accion::Actualizar,
                            repartidor,
                            posicion: entidad.posicion_repartidor,
                            id_comensal_actual: None,
                            status: EstadoRepartidor::Active,
                        },
                    ),
                ),
            );
            efectos.push(Efecto::ManejarPedido(HandlePedido { id_comensal_ht: comensal }));
            return efectos;
        }
        let destinatario = match almacenamiento.obtener_comensal(ObtenerComensal { id: comensal }) {
            Some(c) => c,
            None => {
                return efectos;
            },
        };
        let enviador = match destinatario.enviador_comensal {
            Some(e) => e,
            None => {
                return efectos;
            },
        };
        let inicio = IniciarViajeDelivery {
            direccion_comensal_i: comensal,
            direccion_conductor_i: repartidor,
            origen_i: destinatario.posicion_comensal,
            destino_i: destinatario.destino_comensal,
        };
        efectos.push(Efecto::Enviar(enviador, Linea::IniciarViajeDelivery(inicio)));
        efectos.push(Efecto::Enviar(self.tcp_enviador, Linea::IniciarViajeDelivery(inicio)));
        almacenamiento.actualizar_repartidor(
            ActualizarRepartidor {
                id_repartidor: repartidor,
                id_comensal: Some(comensal),
                estado: EstadoRepartidor::OnTrip,
                time_stamp: ahora,
            },
        );
        efectos.push(
            Efecto::Difundir(
                Delta::Repartidores(
                    ActualizarRepartidores {
                        accion: Accion::Actualizar,
                        repartidor,
                        posicion: entidad.posicion_repartidor,
                        id_comensal_actual: Some(comensal),
                        status: EstadoRepartidor::OnTrip,
                    },
                ),
            ),
        );
        efectos
    }
}

} // verus!
