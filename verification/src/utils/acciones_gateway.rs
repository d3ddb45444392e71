use crate::common::mensajes::EnviarMensajePago;
use crate::common::mensajes_gateway::{
    EfectivizarPago, MensajeGateway, RequerirPago, ValidarAutorizacionPago,
};
use crate::gateway::gateway::RespuestaGateway;
use vstd::prelude::*;

verus! {

/// The request that goes to the gateway for a payment message.
pub open spec fn requerir_pago_spec(msj: EnviarMensajePago) -> RequerirPago {
    match msj.tipo_mensaje {
        MensajeGateway::Validar => RequerirPago::ValidarAutorizacionPago(
            ValidarAutorizacionPago { id_comensal: msj.id_comensal, valor: msj.valor },
        ),
        MensajeGateway::Pagar => RequerirPago::EfectivizarPago(
            EfectivizarPago { id_comensal: msj.id_comensal, valor: msj.valor },
        ),
    }
}

/// Builds the request for a payment message.
pub fn requerir_pago(msj: EnviarMensajePago) -> (r: RequerirPago)
    ensures
        r == requerir_pago_spec(msj),
{
    match msj.tipo_mensaje {
        MensajeGateway::Validar => RequerirPago::ValidarAutorizacionPago(
            ValidarAutorizacionPago { id_comensal: msj.id_comensal, valor: msj.valor },
        ),
        MensajeGateway::Pagar => RequerirPago::EfectivizarPago(
            EfectivizarPago { id_comensal: msj.id_comensal, valor: msj.valor },
        ),
    }
}

/// What the payment path reports of the gateway's answer. An authorisation
/// counts as what it says, any answer to a capture as success, and no
/// answer at all (gateway unreachable, silent for too long, or not
/// understood) as a refusal.
pub open spec fn obtener_respuesta_pago_spec(respuesta: Option<RespuestaGateway>) -> bool {
    match respuesta {
        Some(RespuestaGateway::Autorizacion(a)) => a.autorizado,
        Some(RespuestaGateway::Pago(_)) => true,
        None => false,
    }
}

/// Reads the gateway's answer as an authorisation.
pub fn obtener_respuesta_pago(respuesta: Option<RespuestaGateway>) -> (r: bool)
    ensures
        r == obtener_respuesta_pago_spec(respuesta),
{
    match respuesta {
        Some(RespuestaGateway::Autorizacion(a)) => a.autorizado,
        Some(RespuestaGateway::Pago(_)) => true,
        None => false,
    }
}

/// The message that asks for the authorisation of a payment of `valor`.
pub fn generar_mensaje_chequeo_pago(id_comensal: String, valor: u32) -> (r: EnviarMensajePago)
    ensures
        r == (EnviarMensajePago { id_comensal, valor, tipo_mensaje: MensajeGateway::Validar }),
{
    EnviarMensajePago { id_comensal, valor, tipo_mensaje: MensajeGateway::Validar }
}

/// The message that asks for the capture of a payment of `valor`.
pub fn generar_mensaje_pago_hecho(id_comensal: String, valor: u32) -> (r: EnviarMensajePago)
    ensures
        r == (EnviarMensajePago { id_comensal, valor, tipo_mensaje: MensajeGateway::Pagar }),
{
    EnviarMensajePago { id_comensal, valor, tipo_mensaje: MensajeGateway::Pagar }
}

} // verus!
