use crate::clientes::comensal::viaje_finalizado;
use crate::common::mensajes::{
    FinalizarViaje, IniciarViajeDelivery, OfertarViaje, Posicion, RespuestaOfertaViaje,
};
use vstd::prelude::*;

verus! {

/// A courier: where it stands.
#[derive(Clone, Copy, Debug, PartialEq, Eq)]
pub struct Repartidor {
    pub ubicacion: Posicion,
}

impl Repartidor {
    /// A courier that stands at `ubicacion`.
    pub fn new(ubicacion: Posicion) -> (r: Repartidor)
        ensures
            r.ubicacion == ubicacion,
    {
        Repartidor { ubicacion }
    }

    /// The announcement of where the courier stands.
    pub fn enviar_posicion(&self) -> (r: Posicion)
        ensures
            r == self.ubicacion,
    {
        self.ubicacion
    }

    /// The answer to an offer, once the courier has made up its mind.
    pub fn handle_puede_aceptar_viaje(
        &self,
        msj: OfertarViaje,
        esta_aceptado: bool,
    ) -> (r: RespuestaOfertaViaje)
        ensures
            r == (RespuestaOfertaViaje {
                direccion_comensal_r: msj.direccion_comensal_o,
                esta_aceptado,
            }),
    {
        RespuestaOfertaViaje { direccion_comensal_r: msj.direccion_comensal_o, esta_aceptado }
    }

    /// The report that ends a delivery, and the courier at the place where
    /// the delivery ended.
    pub fn handle_iniciar_viaje(&mut self, msj: IniciarViajeDelivery) -> (r: FinalizarViaje)
        ensures
            r == viaje_finalizado(msj),
            final(self).ubicacion.posicion == msj.destino_i,
    {
        self.ubicacion = Posicion { posicion: msj.destino_i };
        FinalizarViaje {
            direccion_comensal_f: msj.direccion_comensal_i,
            direccion_conductor_f: msj.direccion_conductor_i,
            pos_destino: msj.destino_i,
        }
    }
}

} // verus!
