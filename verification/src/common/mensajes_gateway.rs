use vstd::prelude::*;

verus! {

/// Which of the gateway's two services a request asks for.
#[derive(Clone, Copy, Debug, PartialEq, Eq, Structural)]
pub enum MensajeGateway {
    Validar,
    Pagar,
}

/// Asks the gateway whether a diner may be charged.
#[derive(Clone, Debug, PartialEq, Eq)]
pub struct ValidarAutorizacionPago {
    pub id_comensal: String,
    pub valor: u32,
}

/// Asks the gateway to capture a payment.
#[derive(Clone, Debug, PartialEq, Eq)]
pub struct EfectivizarPago {
    pub id_comensal: String,
    pub valor: u32,
}

/// A request to the gateway.
#[derive(Clone, Debug, PartialEq, Eq)]
pub enum RequerirPago {
    ValidarAutorizacionPago(ValidarAutorizacionPago),
    EfectivizarPago(EfectivizarPago),
}

/// The gateway's answer to an authorisation request.
#[derive(Clone, Debug, PartialEq, Eq)]
pub struct RespuestaAutorizacion {
    pub id_comensal: String,
    pub autorizado: bool,
}

/// The gateway's answer to a capture request.
#[derive(Clone, Debug, PartialEq, Eq)]
pub enum RespuestaPago {
    PagoHecho,
    PaymentError(String),
}

} // verus!
