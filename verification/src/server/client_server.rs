use crate::almacenamiento::almacenamiento::{
    lema_vista_bien_formada, Almacenamiento, VistaAlmacenamiento,
};
use crate::almacenamiento::mensajes_almacenamiento::{
    HayRecursosDisponibles, InsertarComensal, InsertarRepartidor, InsertarRestaurante,
};
use crate::common::mensajes::{
    Autorizacion, MensajeIdentidad, PedidoAlRestaurante, Posicion, SolicitarPedido,
    SolicitarRepartidor,
};
use crate::coordinador::mensajes_coordinador::{
    Accion, ActualizarComensales, ActualizarRepartidores, ActualizarRestaurantes, HandlePedido,
};
use crate::direccion::{Coordenadas, Direccion};
use crate::eleccion::eleccion::EleccionCoordinador;
use crate::server::efectos::{Delta, Efecto, Linea, MotivoRechazo};
use crate::server::server::{
    alta_comensal, alta_repartidor, alta_restaurante, rechazo, Server,
};
use crate::utils::entidades::{EstadoRepartidor, Instante};
use vstd::prelude::*;

verus! {

/// A finished delivery, by the two parties to it.
#[derive(Clone, Copy, Debug, PartialEq, Eq)]
pub struct ViajeFinalizado {
    pub id_comensal_tf: Direccion,
    pub id_repartidor_tf: Direccion,
}

impl Server {
    /// How the courier at the other end of this session is stored when it
    /// announces itself at `posicion`: free, and reachable by this session.
    pub open spec fn alta_de_repartidor(
        &self,
        posicion: Coordenadas,
        ahora: Instante,
    ) -> InsertarRepartidor {
        InsertarRepartidor {
            id: self.client_addr,
            posicion_restaurante: posicion,
            id_comensal_actual: None,
            enviador_repartidor: Some(self.tcp_enviador),
            estado: EstadoRepartidor::Active,
            time_stamp: ahora,
        }
    }

    /// How the restaurant at the other end of this session is stored.
    pub open spec fn alta_de_restaurante(
        &self,
        posicion: Coordenadas,
        ahora: Instante,
    ) -> InsertarRestaurante {
        InsertarRestaurante {
            id: self.client_addr,
            posicion_repartidor: posicion,
            enviador_repartidor: Some(self.tcp_enviador),
            estado: EstadoRepartidor::Active,
            time_stamp: ahora,
        }
    }

    /// How the diner at the other end of this session is stored when it
    /// orders: its food is picked up at `origen` until a restaurant is found.
    pub open spec fn alta_de_comensal(
        &self,
        msg: SolicitarPedido,
        origen: Coordenadas,
    ) -> InsertarComensal {
        InsertarComensal {
            id: self.client_addr,
            posicion_restaurante_del_pedido: origen,
            ubicacion_comensal: msg.destino,
            enviador_comensal: Some(self.tcp_enviador),
        }
    }

    /// The order of this session's diner as it waits for the gateway.
    pub open spec fn pedido_de(&self, msg: SolicitarPedido) -> PedidoAlRestaurante {
        PedidoAlRestaurante {
            direccion_comensal_r: self.client_addr,
            esta_aceptado: true,
            comida: msg.comida,
            posicion_comensal: msg.destino,
        }
    }

    /// What the announcement of a courier does: the leader stores the
    /// courier as free and tells the followers; a follower does nothing.
    pub open spec fn posicion_spec(
        &self,
        v: VistaAlmacenamiento,
        msg: Posicion,
        lider: bool,
        ahora: Instante,
    ) -> (VistaAlmacenamiento, Seq<Efecto>) {
        if lider {
            (
                v.insertar_repartidor(self.alta_de_repartidor(msg.posicion, ahora)),
                seq![Efecto::Difundir(alta_repartidor(self.client_addr, msg.posicion))],
            )
        } else {
            (v, Seq::<Efecto>::empty())
        }
    }

    /// A courier announces where it stands.
    pub fn posicion(
        &self,
        msg: Posicion,
        eleccion: &EleccionCoordinador,
        almacenamiento: &mut Almacenamiento,
        ahora: Instante,
    ) -> (r: Vec<Efecto>)
        ensures
            final(almacenamiento)@.bien_formada(),
            (final(almacenamiento)@, r@) == self.posicion_spec(
                old(almacenamiento)@,
                msg,
                eleccion.es_coordinador_spec(),
                ahora,
            ),
    {
        let mut efectos: Vec<Efecto> = Vec::new();
        if eleccion.es_coordinador() {
            almacenamiento.insertar_repartidor(
                InsertarRepartidor {
                    id: self.client_addr,
                    posicion_restaurante: msg.posicion,
                    id_comensal_actual: None,
                    enviador_repartidor: Some(self.tcp_enviador),
                    estado: EstadoRepartidor::Active,
                    time_stamp: ahora,
                },
            );
            efectos.push(
                Efecto::Difundir(
                    Delta::Repartidores(
                        ActualizarRepartidores {
                            accion: Accion::Insertar,
                            repartidor: self.client_addr,
                            posicion: msg.posicion,
                            id_comensal_actual: None,
                            status: EstadoRepartidor::Active,
                        },
                    ),
                ),
            );
        } else {
            proof {
                use_type_invariant(&*almacenamiento);
                lema_vista_bien_formada(*almacenamiento);
            }
        }
        efectos
    }

    /// What an identity announcement does: the leader stores the sender as
    /// what it says it is, a courier or a restaurant, and tells the
    /// followers; a follower does nothing.
    pub open spec fn mensaje_identidad_spec(
        &self,
        v: VistaAlmacenamiento,
        msg: MensajeIdentidad,
        lider: bool,
        ahora: Instante,
    ) -> (VistaAlmacenamiento, Seq<Efecto>) {
        if msg.soy_repartidor {
            self.posicion_spec(v, Posicion { posicion: msg.ubicacion }, lider, ahora)
        } else if lider {
            (
                v.insertar_restaurante(self.alta_de_restaurante(msg.ubicacion, ahora)),
                seq![Efecto::Difundir(alta_restaurante(self.client_addr, msg.ubicacion))],
            )
        } else {
            (v, Seq::<Efecto>::empty())
        }
    }

    /// A restaurant or a courier says who it is and where.
    pub fn mensaje_identidad(
        &self,
        msg: MensajeIdentidad,
        eleccion: &EleccionCoordinador,
        almacenamiento: &mut Almacenamiento,
        ahora: Instante,
    ) -> (r: Vec<Efecto>)
        ensures
            final(almacenamiento)@.bien_formada(),
            (final(almacenamiento)@, r@) == self.mensaje_identidad_spec(
                old(almacenamiento)@,
                msg,
                eleccion.es_coordinador_spec(),
                ahora,
            ),
    {
        if msg.soy_repartidor {
            return self.posicion(Posicion { posicion: msg.ubicacion }, eleccion, almacenamiento, ahora);
        }
        let mut efectos: Vec<Efecto> = Vec::new();
        if eleccion.es_coordinador() {
            almacenamiento.insertar_restaurante(
                InsertarRestaurante {
                    id: self.client_addr,
                    posicion_repartidor: msg.ubicacion,
                    enviador_repartidor: Some(self.tcp_enviador),
                    estado: EstadoRepartidor::Active,
                    time_stamp: ahora,
                },
            );
            efectos.push(
                Efecto::Difundir(
                    Delta::Restaurantes(
                        ActualizarRestaurantes {
                            accion: Accion::Insertar,
                            restaurante: self.client_addr,
                            posicion: msg.ubicacion,
                            id_comensal_actual: None,
                            status: EstadoRepartidor::Active,
                        },
                    ),
                ),
            );
        } else {
            proof {
                use_type_invariant(&*almacenamiento);
                lema_vista_bien_formada(*almacenamiento);
            }
        }
        efectos
    }

    /// What an order does. Only the leader takes orders. With a courier
    /// and a restaurant known, the diner is stored, the followers are told, and the gateway
    /// is asked. With either missing, the diner is refused at once and the
    /// gateway is not asked.
    pub open spec fn solicitar_pedido_spec(
        &self,
        v: VistaAlmacenamiento,
        msg: SolicitarPedido,
        origen: Coordenadas,
        lider: bool,
    ) -> (VistaAlmacenamiento, Seq<Efecto>) {
        let con_comensal = v.insertar_comensal(self.alta_de_comensal(msg, origen));
        if !lider {
            (v, Seq::<Efecto>::empty())
        } else if v.hay_recursos() {
            (
                con_comensal,
                seq![
                    Efecto::Difundir(alta_comensal(self.client_addr, origen, msg.destino)),
                    Efecto::ValidarPago(self.pedido_de(msg)),
                ],
            )
        } else {
            rechazo(con_comensal, self.client_addr, MotivoRechazo::SinRecursos)
        }
    }

    /// A diner orders. Only the leader takes orders; `origen` is where the
    /// food is taken to come from until a restaurant is chosen.
    pub fn solicitar_pedido(
        &self,
        msg: SolicitarPedido,
        origen: Coordenadas,
        eleccion: &EleccionCoordinador,
        almacenamiento: &mut Almacenamiento,
    ) -> (r: Vec<Efecto>)
        ensures
            final(almacenamiento)@.bien_formada(),
            (final(almacenamiento)@, r@) == self.solicitar_pedido_spec(
                old(almacenamiento)@,
                msg,
                origen,
                eleccion.es_coordinador_spec(),
            ),
    {
        if !eleccion.es_coordinador() {
            proof {
                use_type_invariant(&*almacenamiento);
                lema_vista_bien_formada(*almacenamiento);
            }
            return Vec::new();
        }
        let recursos = almacenamiento.hay_recursos_disponibles(HayRecursosDisponibles);
        almacenamiento.insertar_comensal(
            InsertarComensal {
                id: self.client_addr,
                posicion_restaurante_del_pedido: origen,
                ubicacion_comensal: msg.destino,
                enviador_comensal: Some(self.tcp_enviador),
            },
        );
        if !recursos {
            return Server::rechazar_pasajero(
                self.client_addr,
                almacenamiento,
                MotivoRechazo::SinRecursos,
            );
        }
        let mut efectos: Vec<Efecto> = Vec::new();
        efectos.push(
            Efecto::Difundir(
                Delta::Comensales(
                    ActualizarComensales {
                        accion: Accion::Insertar,
                        comensal: self.client_addr,
                        origen,
                        destino: msg.destino,
                    },
                ),
            ),
        );
        efectos.push(
            Efecto::ValidarPago(
                PedidoAlRestaurante {
                    direccion_comensal_r: self.client_addr,
                    esta_aceptado: true,
                    comida: msg.comida,
                    posicion_comensal: msg.destino,
                },
            ),
        );
        efectos
    }

    /// What the gateway's answer does.
    pub open spec fn autorizacion_post(
        v: VistaAlmacenamiento,
        msg: Autorizacion,
        pedido: PedidoAlRestaurante,
        w: VistaAlmacenamiento,
        efectos: Seq<Efecto>,
    ) -> bool {
        if msg.esta_autorizado {
            Server::pedido_al_restaurante_post(v, pedido, w, efectos)
        } else {
            (w, efectos) == rechazo(v, msg.direccion_comensal, MotivoRechazo::SaldoInsuficiente)
        }
    }

    /// The gateway has answered, or could not be reached, which counts as a
    /// refusal. A diner that may not be charged is refused, and neither a
    /// restaurant nor a courier hears of the order. One that may be charged
    /// has its order offered to a restaurant.
    pub fn autorizacion(
        &self,
        msg: Autorizacion,
        pedido: PedidoAlRestaurante,
        almacenamiento: &mut Almacenamiento,
    ) -> (r: Vec<Efecto>)
        ensures
            final(almacenamiento)@.bien_formada(),
            Server::autorizacion_post(old(almacenamiento)@, msg, pedido, final(almacenamiento)@, r@),
    {
        if msg.esta_autorizado {
            self.pedido_al_restaurante(pedido, almacenamiento)
        } else {
            Server::rechazar_pasajero(
                msg.direccion_comensal,
                almacenamiento,
                MotivoRechazo::SaldoInsuficiente,
            )
        }
    }

    /// What a restaurant's verdict does. A refusal is final for the diner
    /// and touches no courier. After an acceptance the leader has a
    /// courier looked for; a follower does nothing.
    pub open spec fn solicitar_repartidor_spec(
        v: VistaAlmacenamiento,
        msg: SolicitarRepartidor,
        lider: bool,
    ) -> (
        VistaAlmacenamiento,
        Seq<Efecto>,
    ) {
        if !msg.pedido_aceptado {
            rechazo(v, msg.direccion_comensal, MotivoRechazo::Restaurante)
        } else if lider {
            (v, seq![Efecto::ManejarPedido(HandlePedido { id_comensal_ht: msg.direccion_comensal })])
        } else {
            (v, Seq::<Efecto>::empty())
        }
    }

    /// A restaurant gives its verdict on an order.
    pub fn solicitar_repartidor(
        &self,
        msg: SolicitarRepartidor,
        eleccion: &EleccionCoordinador,
        almacenamiento: &mut Almacenamiento,
    ) -> (r: Vec<Efecto>)
        ensures
            final(almacenamiento)@.bien_formada(),
            (final(almacenamiento)@, r@) == Server::solicitar_repartidor_spec(
                old(almacenamiento)@,
                msg,
                eleccion.es_coordinador_spec(),
            ),
    {
        if !msg.pedido_aceptado {
            return Server::rechazar_pasajero(
                msg.direccion_comensal,
                almacenamiento,
                MotivoRechazo::Restaurante,
            );
        }
        proof {
                use_type_invariant(&*almacenamiento);
                lema_vista_bien_formada(*almacenamiento);
            }
        let mut efectos: Vec<Efecto> = Vec::new();
        if eleccion.es_coordinador() {
            efectos.push(
                Efecto::ManejarPedido(HandlePedido { id_comensal_ht: msg.direccion_comensal }),
            );
        }
        efectos
    }
}

} // verus!
