use crate::common::mensajes_gateway::{
    RequerirPago, RespuestaAutorizacion, RespuestaPago,
};
use crate::direccion::Direccion;
use rand::Rng;
use vstd::prelude::*;

verus! {

/// Draws of ten below which an authorisation is refused.
pub const PORCENTAJE_ERROR: u8 = 3;

/// What the gateway answers.
#[derive(Clone, Debug, PartialEq, Eq)]
pub enum RespuestaGateway {
    Autorizacion(RespuestaAutorizacion),
    Pago(RespuestaPago),
}

/// One session of the payment gateway.
#[derive(Clone, Copy, Debug, PartialEq, Eq)]
pub struct GatewayActor {
    pub direccion: Direccion,
}

/// `rand::Rng::random_range` on the thread-local generator, over the
/// inclusive range from 1 to 10: some number of that range. Which one is a
/// matter of chance, so nothing more is said of it.
#[verifier::external_body]
fn tirada() -> (t: u8)
    ensures
        1 <= t <= 10,
{
    rand::rng().random_range(1..=10)
}

/// Whether a draw authorises the payment.
pub open spec fn autoriza_spec(tirada: u8) -> bool {
    tirada >= PORCENTAJE_ERROR
}

/// Computes whether a draw authorises.
#[verifier::when_used_as_spec(autoriza_spec)]
pub fn autoriza(tirada: u8) -> (r: bool)
    ensures
        r == autoriza_spec(tirada),
{
    tirada >= PORCENTAJE_ERROR
}

/// The answer to a request when the draw was `tirada`: an authorisation is
/// granted or refused by the draw, a capture always succeeds.
pub open spec fn responder_spec(mensaje: RequerirPago, tirada: u8) -> RespuestaGateway {
    match mensaje {
        RequerirPago::ValidarAutorizacionPago(m) => RespuestaGateway::Autorizacion(
            RespuestaAutorizacion { id_comensal: m.id_comensal, autorizado: autoriza_spec(tirada) },
        ),
        RequerirPago::EfectivizarPago(_) => RespuestaGateway::Pago(RespuestaPago::PagoHecho),
    }
}

/// Computes the answer to a request for a given draw.
pub fn responder(mensaje: RequerirPago, tirada: u8) -> (r: RespuestaGateway)
    ensures
        r == responder_spec(mensaje, tirada),
{
    match mensaje {
        RequerirPago::ValidarAutorizacionPago(m) => RespuestaGateway::Autorizacion(
            RespuestaAutorizacion { id_comensal: m.id_comensal, autorizado: autoriza(tirada) },
        ),
        RequerirPago::EfectivizarPago(_) => RespuestaGateway::Pago(RespuestaPago::PagoHecho),
    }
}

impl GatewayActor {
    /// The session of the gateway for the client at `direccion`.
    pub fn new(direccion: Direccion) -> (r: GatewayActor)
        ensures
            r.direccion == direccion,
    {
        GatewayActor { direccion }
    }

    /// Answers a request. An authorisation is decided by one draw from 1 to
    /// 10; a capture needs none and always succeeds.
    pub fn handle(&self, mensaje: RequerirPago) -> (r: RespuestaGateway)
        ensures
            match mensaje {
                RequerirPago::ValidarAutorizacionPago(_) => exists|t: u8|
                    1 <= t <= 10 && r == #[trigger] responder_spec(mensaje, t),
                RequerirPago::EfectivizarPago(_) => r == RespuestaGateway::Pago(
                    RespuestaPago::PagoHecho,
                ),
            },
    {
        match mensaje {
            RequerirPago::ValidarAutorizacionPago(m) => {
                let t = tirada();
                let r = RespuestaGateway::Autorizacion(
                    RespuestaAutorizacion { id_comensal: m.id_comensal, autorizado: autoriza(t) },
                );
                assert(r == responder_spec(mensaje, t));
                r
            },
            RequerirPago::EfectivizarPago(_) => RespuestaGateway::Pago(RespuestaPago::PagoHecho),
        }
    }
}

} // verus!
