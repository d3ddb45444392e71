use crate::common::mensajes::QuienEsCoordinador;
use crate::direccion::Direccion;
use vstd::prelude::*;

verus! {

/// What came of asking one server who the leader is.
#[derive(Clone, Copy, Debug, PartialEq, Eq)]
pub enum RespuestaServidor {
    /// The server could not be connected to.
    SinConexion,
    /// The server named the leader.
    Lider(QuienEsCoordinador),
    /// The server answered that it knows no leader.
    SinLider,
    /// The server was connected to and gave no usable answer.
    Nada,
}

/// What a client does next in its search for the leader.
#[derive(Clone, Copy, Debug, PartialEq, Eq)]
pub enum PasoDescubrimiento {
    /// Ask the server at this place of the list.
    Probar(usize),
    /// Connect to the leader at this address.
    Conectar(Direccion),
    /// Give up: no leader was found.
    Abandonar,
}

/// The step that follows the answer of the server at place `indice` of a
/// list of `total` servers. Only a server that cannot be connected to is
/// followed by the next one; the first server that is reached settles the
/// search, with a leader or without.
pub open spec fn conectar_con_coordinador_spec(
    total: usize,
    indice: usize,
    respuesta: RespuestaServidor,
) -> PasoDescubrimiento {
    match respuesta {
        RespuestaServidor::SinConexion => if indice + 1 < total {
            PasoDescubrimiento::Probar((indice + 1) as usize)
        } else {
            PasoDescubrimiento::Abandonar
        },
        RespuestaServidor::Lider(q) => PasoDescubrimiento::Conectar(q.direccion_coordinador),
        RespuestaServidor::SinLider => PasoDescubrimiento::Abandonar,
        RespuestaServidor::Nada => PasoDescubrimiento::Abandonar,
    }
}

/// Computes what `conectar_con_coordinador_spec` says.
pub fn conectar_con_coordinador(
    total: usize,
    indice: usize,
    respuesta: RespuestaServidor,
) -> (r: PasoDescubrimiento)
    ensures
        r == conectar_con_coordinador_spec(total, indice, respuesta),
{
    match respuesta {
        RespuestaServidor::SinConexion => if indice < total && indice + 1 < total {
            PasoDescubrimiento::Probar(indice + 1)
        } else {
            PasoDescubrimiento::Abandonar
        },
        RespuestaServidor::Lider(q) => PasoDescubrimiento::Conectar(q.direccion_coordinador),
        RespuestaServidor::SinLider => PasoDescubrimiento::Abandonar,
        RespuestaServidor::Nada => PasoDescubrimiento::Abandonar,
    }
}

/// Where the search for the leader starts: at the first server, if there
/// is one.
pub fn iniciar_descubrimiento(total: usize) -> (r: PasoDescubrimiento)
    ensures
        r == if total > 0 {
            PasoDescubrimiento::Probar(0)
        } else {
            PasoDescubrimiento::Abandonar
        },
{
    if total > 0 {
        PasoDescubrimiento::Probar(0)
    } else {
        PasoDescubrimiento::Abandonar
    }
}

} // verus!
