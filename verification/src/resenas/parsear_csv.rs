use crate::resenas::estadisticas::{
    ley_combinar_agrega, ley_combinar_vacias, Estadisticas, EstadisticasVista,
};
use crate::resenas::review::{
    armar_spec, campo_spec, valor_u32, Review, ReviewVista, POSICION_APP_NAME, POSICION_LANGUAGE,
    POSICION_REVIEW, POSICION_VOTES_HELPFUL,
};
use csv::StringRecord;
use vstd::prelude::*;

verus! {

/// How many records are read together.
pub const CHUNK_SIZE: usize = 200_000;

/// The review that a record holds, if it holds one.
pub open spec fn review_de(record: StringRecord) -> Option<ReviewVista> {
    armar_spec(
        campo_spec(record, POSICION_APP_NAME),
        campo_spec(record, POSICION_LANGUAGE),
        campo_spec(record, POSICION_REVIEW),
        match campo_spec(record, POSICION_VOTES_HELPFUL) {
            Some(t) => Some(valor_u32(t)),
            None => None,
        },
    )
}

/// The statistics of the first `n` records: those of the records before
/// the last, with the review of the last where it holds one.
pub open spec fn estadisticas_de(registros: Seq<StringRecord>, n: nat) -> EstadisticasVista
    decreases n,
{
    if n == 0 {
        EstadisticasVista::vacias()
    } else {
        let antes = estadisticas_de(registros, (n - 1) as nat);
        match review_de(registros[n - 1]) {
            Some(r) => antes.agregar_review(r),
            None => antes,
        }
    }
}

/// The statistics of a run of records. Records that hold no review are
/// passed over.
pub fn procesar_registros(registros: &Vec<StringRecord>) -> (r: Estadisticas)
    ensures
        r@ == estadisticas_de(registros@, registros.len() as nat),
{
    let mut estadisticas = Estadisticas::default();
    let mut i: usize = 0;
    while i < registros.len()
        invariant
            i <= registros.len(),
            estadisticas@ == estadisticas_de(registros@, i as nat),
        decreases registros.len() - i,
    {
        if let Some(review) = Review::parse_record(&registros[i]) {
            estadisticas.agregar_review(review);
        }
        i = i + 1;
    }
    estadisticas
}

/// Records may be read in parts: the statistics of two runs of records,
/// taken together, are the statistics of the one run after the other.
pub proof fn ley_por_partes(a: Seq<StringRecord>, b: Seq<StringRecord>, n: nat)
    requires
        n <= b.len(),
    ensures
        estadisticas_de(a, a.len()).combinar(estadisticas_de(b, n)) == estadisticas_de(
            a + b,
            a.len() + n,
        ),
    decreases n,
{
    if n == 0 {
        ley_combinar_vacias(estadisticas_de(a, a.len()));
        lema_prefijo(a, a + b, a.len());
    } else {
        ley_por_partes(a, b, (n - 1) as nat);
        let antes = estadisticas_de(b, (n - 1) as nat);
        assert((a + b)[a.len() + n - 1] == b[n - 1]);
        match review_de(b[n - 1]) {
            Some(r) => {
                ley_combinar_agrega(estadisticas_de(a, a.len()), antes, r);
            },
            None => {},
        }
    }
}

/// The statistics of the first records of a run depend on those records
/// only.
proof fn lema_prefijo(s: Seq<StringRecord>, t: Seq<StringRecord>, n: nat)
    requires
        n <= s.len(),
        n <= t.len(),
        forall|i: int| 0 <= i < n ==> s[i] == t[i],
    ensures
        estadisticas_de(s, n) == estadisticas_de(t, n),
    decreases n,
{
    if n > 0 {
        lema_prefijo(s, t, (n - 1) as nat);
    }
}

} // verus!
