use crate::almacenamiento::almacenamiento::{Almacenamiento, VistaAlmacenamiento};
use crate::almacenamiento::mensajes_almacenamiento::{
    ActualizarRepartidor, BorrarComensal, BorrarRepartidor, BorrarRestaurante, InsertarComensal,
    InsertarRepartidor, InsertarRestaurante,
};
use crate::coordinador::mensajes_coordinador::{
    Accion, ActualizarComensales, ActualizarRepartidores, ActualizarRestaurantes,
    UpdateRepartidores,
};
use crate::server::efectos::Delta;
use crate::server::server::Server;
use crate::almacenamiento::almacenamiento::lema_vista_bien_formada;
use crate::utils::entidades::{EstadoRepartidor, Instante};
use vstd::prelude::*;

verus! {

/// A courier delta, on its way into the store.
#[derive(Clone, Copy, Debug, PartialEq, Eq)]
pub struct HacerActualizacionRepartidores {
    pub upt_msg: ActualizarRepartidores,
}

/// A diner delta, on its way into the store.
#[derive(Clone, Copy, Debug, PartialEq, Eq)]
pub struct HacerActualizacionComensal {
    pub upt_msg: ActualizarComensales,
}

/// A restaurant delta, on its way into the store.
#[derive(Clone, Copy, Debug, PartialEq, Eq)]
pub struct HacerActualizacionRepartidor {
    pub upt_msg: UpdateRepartidores,
}

impl UpdateRepartidores {
    /// The restaurant delta of the leader, in the form that replicas take
    /// in.
    pub fn de(msg: ActualizarRestaurantes) -> (r: UpdateRepartidores)
        ensures
            r == (UpdateRepartidores {
                accion: msg.accion,
                repartidor: msg.restaurante,
                posicion: msg.posicion,
                id_comensal_actual: msg.id_comensal_actual,
                status: msg.status,
                repartidor_activo: msg.status == EstadoRepartidor::Active,
            }),
    {
        UpdateRepartidores {
            accion: msg.accion,
            repartidor: msg.restaurante,
            posicion: msg.posicion,
            id_comensal_actual: msg.id_comensal_actual,
            status: msg.status,
            repartidor_activo: msg.status == EstadoRepartidor::Active,
        }
    }
}

impl Server {
    /// The store after a courier delta that came in over this session at
    /// `ahora`. An inserted courier is free and written to through this
    /// session.
    pub open spec fn hacer_actualizacion_repartidores_spec(
        &self,
        v: VistaAlmacenamiento,
        upt: ActualizarRepartidores,
        ahora: Instante,
    ) -> VistaAlmacenamiento {
        match upt.accion {
            Accion::Insertar => v.insertar_repartidor(
                InsertarRepartidor {
                    id: upt.repartidor,
                    posicion_restaurante: upt.posicion,
                    id_comensal_actual: None,
                    enviador_repartidor: Some(self.tcp_enviador),
                    estado: EstadoRepartidor::Active,
                    time_stamp: ahora,
                },
            ),
            Accion::Eliminar => v.borrar_repartidor(BorrarRepartidor { id: upt.repartidor }),
            Accion::Actualizar => v.actualizar_repartidor(
                ActualizarRepartidor {
                    id_repartidor: upt.repartidor,
                    id_comensal: upt.id_comensal_actual,
                    estado: upt.status,
                    time_stamp: ahora,
                },
            ),
        }
    }

    /// Takes a courier delta into the store.
    pub fn hacer_actualizacion_repartidores(
        &self,
        driver_update: HacerActualizacionRepartidores,
        almacenamiento: &mut Almacenamiento,
        ahora: Instante,
    )
        ensures
            final(almacenamiento)@.bien_formada(),
            final(almacenamiento)@ == self.hacer_actualizacion_repartidores_spec(
                old(almacenamiento)@,
                driver_update.upt_msg,
                ahora,
            ),
    {
        let upt = driver_update.upt_msg;
        match upt.accion {
            Accion::Insertar => almacenamiento.insertar_repartidor(
                InsertarRepartidor {
                    id: upt.repartidor,
                    posicion_restaurante: upt.posicion,
                    id_comensal_actual: None,
                    enviador_repartidor: Some(self.tcp_enviador),
                    estado: EstadoRepartidor::Active,
                    time_stamp: ahora,
                },
            ),
            Accion::Eliminar => almacenamiento.borrar_repartidor(
                BorrarRepartidor { id: upt.repartidor },
            ),
            Accion::Actualizar => almacenamiento.actualizar_repartidor(
                ActualizarRepartidor {
                    id_repartidor: upt.repartidor,
                    id_comensal: upt.id_comensal_actual,
                    estado: upt.status,
                    time_stamp: ahora,
                },
            ),
        }
    }

    /// The store after a diner delta. A replicated diner has no writer.
    pub open spec fn hacer_actualizacion_comensal_spec(
        v: VistaAlmacenamiento,
        upt: ActualizarComensales,
    ) -> VistaAlmacenamiento {
        match upt.accion {
            Accion::Insertar => v.insertar_comensal(
                InsertarComensal {
                    id: upt.comensal,
                    posicion_restaurante_del_pedido: upt.origen,
                    ubicacion_comensal: upt.destino,
                    enviador_comensal: None,
                },
            ),
            Accion::Eliminar => v.borrar_comensal(BorrarComensal { id: upt.comensal }),
            Accion::Actualizar => v,
        }
    }

    /// Takes a diner delta into the store.
    pub fn hacer_actualizacion_comensal(
        &self,
        passenger_update: HacerActualizacionComensal,
        almacenamiento: &mut Almacenamiento,
    )
        ensures
            final(almacenamiento)@.bien_formada(),
            final(almacenamiento)@ == Server::hacer_actualizacion_comensal_spec(
                old(almacenamiento)@,
                passenger_update.upt_msg,
            ),
    {
        let upt = passenger_update.upt_msg;
        match upt.accion {
            Accion::Insertar => almacenamiento.insertar_comensal(
                InsertarComensal {
                    id: upt.comensal,
                    posicion_restaurante_del_pedido: upt.origen,
                    ubicacion_comensal: upt.destino,
                    enviador_comensal: None,
                },
            ),
            Accion::Eliminar => almacenamiento.borrar_comensal(BorrarComensal { id: upt.comensal }),
            Accion::Actualizar => {
                proof {
                    use_type_invariant(&*almacenamiento);
                    lema_vista_bien_formada(*almacenamiento);
                }
            },
        }
    }

    /// The store after a restaurant delta that came in at `ahora`. A
    /// replicated restaurant is open and has no writer.
    pub open spec fn hacer_actualizacion_repartidor_spec(
        v: VistaAlmacenamiento,
        upt: UpdateRepartidores,
        ahora: Instante,
    ) -> VistaAlmacenamiento {
        match upt.accion {
            Accion::Insertar => v.insertar_restaurante(
                InsertarRestaurante {
                    id: upt.repartidor,
                    posicion_repartidor: upt.posicion,
                    enviador_repartidor: None,
                    estado: EstadoRepartidor::Active,
                    time_stamp: ahora,
                },
            ),
            Accion::Eliminar => v.borrar_restaurante(BorrarRestaurante { id: upt.repartidor }),
            Accion::Actualizar => v,
        }
    }

    /// Takes a restaurant delta into the store.
    pub fn hacer_actualizacion_repartidor(
        &self,
        repartidor_update: HacerActualizacionRepartidor,
        almacenamiento: &mut Almacenamiento,
        ahora: Instante,
    )
        ensures
            final(almacenamiento)@.bien_formada(),
            final(almacenamiento)@ == Server::hacer_actualizacion_repartidor_spec(
                old(almacenamiento)@,
                repartidor_update.upt_msg,
                ahora,
            ),
    {
        let upt = repartidor_update.upt_msg;
        match upt.accion {
            Accion::Insertar => almacenamiento.insertar_restaurante(
                InsertarRestaurante {
                    id: upt.repartidor,
                    posicion_repartidor: upt.posicion,
                    enviador_repartidor: None,
                    estado: EstadoRepartidor::Active,
                    time_stamp: ahora,
                },
            ),
            Accion::Eliminar => almacenamiento.borrar_restaurante(
                BorrarRestaurante { id: upt.repartidor },
            ),
            Accion::Actualizar => {
                proof {
                    use_type_invariant(&*almacenamiento);
                    lema_vista_bien_formada(*almacenamiento);
                }
            },
        }
    }

    /// The store after any delta that came in over this session at `ahora`.
    pub open spec fn aplicar_delta_spec(
        &self,
        v: VistaAlmacenamiento,
        delta: Delta,
        ahora: Instante,
    ) -> VistaAlmacenamiento {
        match delta {
            Delta::Comensales(upt) => Server::hacer_actualizacion_comensal_spec(v, upt),
            Delta::Repartidores(upt) => self.hacer_actualizacion_repartidores_spec(v, upt, ahora),
            Delta::Restaurantes(upt) => Server::hacer_actualizacion_repartidor_spec(
                v,
                UpdateRepartidores {
                    accion: upt.accion,
                    repartidor: upt.restaurante,
                    posicion: upt.posicion,
                    id_comensal_actual: upt.id_comensal_actual,
                    status: upt.status,
                    repartidor_activo: upt.status == EstadoRepartidor::Active,
                },
                ahora,
            ),
        }
    }

    /// Takes a delta of any kind into the store.
    pub fn aplicar_delta(&self, delta: Delta, almacenamiento: &mut Almacenamiento, ahora: Instante)
        ensures
            final(almacenamiento)@.bien_formada(),
            final(almacenamiento)@ == self.aplicar_delta_spec(old(almacenamiento)@, delta, ahora),
    {
        match delta {
            Delta::Comensales(upt) => self.hacer_actualizacion_comensal(
                HacerActualizacionComensal { upt_msg: upt },
                almacenamiento,
            ),
            Delta::Repartidores(upt) => self.hacer_actualizacion_repartidores(
                HacerActualizacionRepartidores { upt_msg: upt },
                almacenamiento,
                ahora,
            ),
            Delta::Restaurantes(upt) => self.hacer_actualizacion_repartidor(
                HacerActualizacionRepartidor { upt_msg: UpdateRepartidores::de(upt) },
                almacenamiento,
                ahora,
            ),
        }
    }
}

} // verus!
