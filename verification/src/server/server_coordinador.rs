use crate::almacenamiento::almacenamiento::{Almacenamiento, VistaAlmacenamiento};
use crate::almacenamiento::mensajes_almacenamiento::{ActualizarRepartidor, ObtenerRepartidor};
use crate::common::mensajes::OfertarViaje;
use crate::coordinador::mensajes_coordinador::HandlePedido;
use crate::direccion::Direccion;
use crate::server::efectos::{Efecto, Linea, MotivoRechazo};
use crate::server::server::{rechazo, Server};
use crate::utils::entidades::{EstadoRepartidor, Instante};
use vstd::prelude::*;

verus! {

/// A courier proposed for the order of a diner.
#[derive(Clone, Copy, Debug, PartialEq, Eq)]
pub struct HacerPedido {
    pub id_comensal_mt: Direccion,
    pub id_repartidor_mt: Direccion,
}

impl Server {
    /// What a proposal does on the leader. Where the proposed courier is
    /// not stored, the diner is refused. Where it is stored and not free,
    /// the search for a courier starts again and nothing else is done.
    /// Where it is free, it is offered the delivery and waits, from `ahora`
    /// on, with the diner as its assignment; but where it cannot be written
    /// to, the diner is refused.
    pub open spec fn hacer_pedido_spec(v: VistaAlmacenamiento, msg: HacerPedido, ahora: Instante) -> (
        VistaAlmacenamiento,
        Seq<Efecto>,
    ) {
        let comensal = msg.id_comensal_mt;
        let repartidor = msg.id_repartidor_mt;
        if !v.repartidores.contains_key(repartidor) {
            rechazo(v, comensal, MotivoRechazo::SinRepartidor)
        } else if v.repartidores[repartidor].estado != EstadoRepartidor::Active {
            (v, seq![Efecto::ManejarPedido(HandlePedido { id_comensal_ht: comensal })])
        } else {
            match v.repartidores[repartidor].restaurante_sender {
                None => rechazo(v, comensal, MotivoRechazo::EnviadorNoDisponible),
                Some(s) => (
                    v.actualizar_repartidor(
                        ActualizarRepartidor {
                            id_repartidor: repartidor,
                            id_comensal: Some(comensal),
                            estado: EstadoRepartidor::Waiting,
                            time_stamp: ahora,
                        },
                    ),
                    seq![
                        Efecto::Enviar(
                            s,
                            Linea::OfertarViaje(OfertarViaje { direccion_comensal_o: comensal }),
                        ),
                    ],
                ),
            }
        }
    }

    /// Takes the proposal of a courier for a diner.
    pub fn hacer_pedido(
        &self,
        msg: HacerPedido,
        almacenamiento: &mut Almacenamiento,
        ahora: Instante,
    ) -> (r: Vec<Efecto>)
        ensures
            final(almacenamiento)@.bien_formada(),
            (final(almacenamiento)@, r@) == Server::hacer_pedido_spec(
                old(almacenamiento)@,
                msg,
                ahora,
            ),
    {
        let comensal = msg.id_comensal_mt;
        let repartidor = msg.id_repartidor_mt;
        let entidad = match almacenamiento.obtener_repartidor(ObtenerRepartidor { id: repartidor }) {
            Some(e) => e,
            None => {
                return Server::rechazar_pasajero(
                    comensal,
                    almacenamiento,
                    MotivoRechazo::SinRepartidor,
                );
            },
        };
        let mut efectos: Vec<Efecto> = Vec::new();
        if entidad.estado != EstadoRepartidor::Active {
            efectos.push(Efecto::ManejarPedido(HandlePedido { id_comensal_ht: comensal }));
            return efectos;
        }
        match entidad.restaurante_sender {
            None => Server::rechazar_pasajero(
                comensal,
                almacenamiento,
                MotivoRechazo::EnviadorNoDisponible,
            ),
            Some(s) => {
                efectos.push(
                    Efecto::Enviar(
                        s,
                        Linea::OfertarViaje(OfertarViaje { direccion_comensal_o: comensal }),
                    ),
                );
                almacenamiento.actualizar_repartidor(
                    ActualizarRepartidor {
                        id_repartidor: repartidor,
                        id_comensal: Some(comensal),
                        estado: EstadoRepartidor::Waiting,
                        time_stamp: ahora,
                    },
                );
                efectos
            },
        }
    }
}

} // verus!
