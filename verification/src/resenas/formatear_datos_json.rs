use crate::utils::diccionario::{
    claves_distintas, con_valores, entradas_con, indice_de, lema_con_valores, lema_mapa_de,
    mapa_de, tiene_clave, valor_de, Diccionario,
};
use crate::resenas::estadisticas::Estadisticas;
use crate::resenas::idioma::Idioma;
use crate::resenas::idioma_output::{IdiomaMasVotado, ReviewIdioma};
use crate::resenas::juego::Juego;
use crate::resenas::juego_output::{IdiomaPorJuego, JuegoMasVotado};
use crate::resenas::orden::{antes, es_seleccion, mejores, pares_de, precede, Candidato};
use vstd::prelude::*;

verus! {

/// The number that every report carries.
pub const PADRON: u32 = 110310;

/// How many games, and how many languages, a report lists.
pub const TOPE_LISTA: usize = 3;

/// How many reviews of a language a report lists.
pub const TOPE_RESENAS: usize = 10;

/// What is written out of the statistics: the games with the most reviews
/// and the languages with the most reviews.
#[derive(Debug)]
pub struct Output {
    pub padron: u32,
    pub top3_juegos: Vec<JuegoMasVotado>,
    pub top3_idiomas: Vec<IdiomaMasVotado>,
}

/// A count as a report shows it: its lower 32 bits.
pub fn a_u32(x: usize) -> (r: u32)
    ensures
        r == x as u32,
{
    #[verifier::truncate]
    (x as u32)
}

/// How a count is shown.
pub open spec fn mostrar() -> spec_fn(usize) -> u32 {
    |c: usize| c as u32
}

/// The count of reviews of a game, as it is shown.
pub open spec fn cuenta_de_juego() -> spec_fn(Juego) -> u32 {
    |j: Juego| j.reviews as u32
}

/// The count of reviews of a language, as it is shown.
pub open spec fn cuenta_de_idioma() -> spec_fn(Idioma) -> u32 {
    |i: Idioma| i.cantidad_reviews as u32
}

/// One of the rows has the name `l`.
pub open spec fn esta_en(filas: Seq<(u32, Seq<char>)>, l: Seq<char>) -> bool {
    exists|i: int| 0 <= i < filas.len() && (#[trigger] filas[i]).1 == l
}

/// `filas` are the three best of the `total` items of `todos`, or all of
/// them where there are fewer: every row is an item with its count, each
/// row comes before the next, and every row before every item that is no
/// row. The higher count comes first, and of equal counts the lesser name.
pub open spec fn es_top_tres(
    todos: Map<Seq<char>, u32>,
    total: nat,
    filas: Seq<(u32, Seq<char>)>,
) -> bool {
    &&& filas.len() == if total >= TOPE_LISTA {
        TOPE_LISTA as nat
    } else {
        total
    }
    &&& forall|i: int|
        0 <= i < filas.len() ==> todos.contains_key((#[trigger] filas[i]).1) && todos[filas[i].1]
            == filas[i].0
    &&& forall|i: int, j: int|
        0 <= i < j < filas.len() ==> antes(filas[i].0, filas[i].1, filas[j].0, filas[j].1)
    &&& forall|l: Seq<char>, i: int|
        todos.contains_key(l) && !esta_en(filas, l) && 0 <= i < filas.len() ==> antes(
            (#[trigger] filas[i]).0,
            filas[i].1,
            #[trigger] todos[l],
            l,
        )
}

/// The rows that a selection among entries picks.
pub open spec fn filas_de(ent: Seq<(Seq<char>, u32)>, sel: Seq<usize>) -> Seq<(u32, Seq<char>)> {
    Seq::new(sel.len(), |i: int| (ent[sel[i] as int].1, ent[sel[i] as int].0))
}

/// Entries as counts and names.
pub open spec fn pares_de_entradas(ent: Seq<(Seq<char>, u32)>) -> Seq<(u32, Seq<char>)> {
    Seq::new(ent.len(), |i: int| (ent[i].1, ent[i].0))
}

/// The best three picked among entries with distinct keys are the best
/// three of the map that the entries make.
pub proof fn lema_seleccion(ent: Seq<(Seq<char>, u32)>, sel: Seq<usize>)
    requires
        claves_distintas(ent),
        ent.len() <= usize::MAX,
        es_seleccion(pares_de_entradas(ent), true, TOPE_LISTA as nat, sel),
    ensures
        es_top_tres(mapa_de(ent), ent.len(), filas_de(ent, sel)),
{
    let p = pares_de_entradas(ent);
    let filas = filas_de(ent, sel);
    let todos = mapa_de(ent);
    assert forall|i: int| 0 <= i < filas.len() implies todos.contains_key((#[trigger] filas[i]).1)
        && todos[filas[i].1] == filas[i].0 by {
        lema_mapa_de(ent, sel[i] as int);
    }
    assert forall|i: int, j: int| 0 <= i < j < filas.len() implies antes(
        filas[i].0,
        filas[i].1,
        filas[j].0,
        filas[j].1,
    ) by {
        assert(precede(p, true, sel[i] as int, sel[j] as int));
    }
    assert forall|l: Seq<char>, i: int|
        todos.contains_key(l) && !esta_en(filas, l) && 0 <= i < filas.len() implies antes(
        (#[trigger] filas[i]).0,
        filas[i].1,
        #[trigger] todos[l],
        l,
    ) by {
        assert(tiene_clave(ent, l));
        let j = indice_de(ent, l);
        assert(0 <= j < ent.len() && ent[j].0 == l);
        lema_mapa_de(ent, j);
        if sel.contains(j as usize) {
            let a = choose|a: int| 0 <= a < sel.len() && sel[a] == j as usize;
            assert(sel[a] as int == j);
            assert(filas[a].1 == l);
        }
        assert(precede(p, true, sel[i] as int, j));
    }
}

/// `r` lists the reviews of `todas` with the most votes, ten at most: the
/// review with more votes first, and of two with the same votes the one
/// that came first.
pub open spec fn es_top_resenas(todas: Seq<(String, u32)>, r: Seq<ReviewIdioma>) -> bool {
    exists|sel: Seq<usize>|
        {
            &&& #[trigger] es_seleccion(pares_de_resenas(todas), false, TOPE_RESENAS as nat, sel)
            &&& r.len() == sel.len()
            &&& forall|i: int|
                0 <= i < r.len() ==> (#[trigger] r[i]).review@ == todas[sel[i] as int].0@
                    && r[i].votos == todas[sel[i] as int].1
        }
}

/// Reviews as votes and texts.
pub open spec fn pares_de_resenas(todas: Seq<(String, u32)>) -> Seq<(u32, Seq<char>)> {
    Seq::new(todas.len(), |i: int| (todas[i].1, todas[i].0@))
}

/// The rows of a list of languages of a game.
pub open spec fn filas_de_idiomas_de_juego(r: Seq<IdiomaPorJuego>) -> Seq<(u32, Seq<char>)> {
    Seq::new(r.len(), |i: int| (r[i].reviews, r[i].idioma@))
}

/// `r` lists the three languages in which the game has the most reviews,
/// each with the best review that the game has in it, or with an empty
/// one where it has none.
pub open spec fn es_top_idiomas_de(juego: Juego, r: Seq<IdiomaPorJuego>) -> bool {
    &&& es_top_tres(
        con_valores(juego.idiomas@, mostrar()),
        juego.idiomas.entradas().len(),
        filas_de_idiomas_de_juego(r),
    )
    &&& forall|i: int|
        0 <= i < r.len() ==> ((#[trigger] r[i]).top_review@, r[i].top_review_votos) == match valor_de(
            juego.reviews_idiomas@,
            r[i].idioma@,
        ) {
            Some(p) => (p.0@, p.1),
            None => (Seq::<char>::empty(), 0u32),
        }
}

/// The rows of a list of games.
pub open spec fn filas_de_juegos(r: Seq<JuegoMasVotado>) -> Seq<(u32, Seq<char>)> {
    Seq::new(r.len(), |i: int| (r[i].reviews, r[i].nombre@))
}

/// `r` lists the three games with the most reviews, each with its three
/// languages.
pub open spec fn es_top_juegos(e: Estadisticas, r: Seq<JuegoMasVotado>) -> bool {
    &&& es_top_tres(
        con_valores(e.juegos@, cuenta_de_juego()),
        e.juegos.entradas().len(),
        filas_de_juegos(r),
    )
    &&& forall|i: int|
        0 <= i < r.len() ==> es_top_idiomas_de(e.juegos@[(#[trigger] r[i]).nombre@], r[i].idiomas@)
}

/// The rows of a list of languages.
pub open spec fn filas_de_idiomas(r: Seq<IdiomaMasVotado>) -> Seq<(u32, Seq<char>)> {
    Seq::new(r.len(), |i: int| (r[i].reviews, r[i].idioma@))
}

/// `r` lists the three languages with the most reviews, each with its ten
/// reviews of the most votes.
pub open spec fn es_top_idiomas(e: Estadisticas, r: Seq<IdiomaMasVotado>) -> bool {
    &&& es_top_tres(
        con_valores(e.idiomas@, cuenta_de_idioma()),
        e.idiomas.entradas().len(),
        filas_de_idiomas(r),
    )
    &&& forall|i: int|
        0 <= i < r.len() ==> es_top_resenas(
            e.idiomas@[(#[trigger] r[i]).idioma@].top_reviews@,
            r[i].top_reviews@,
        )
}

/// The reviews with the most votes, ten at most.
pub fn filtrar_resenas(todas: &Vec<(String, u32)>) -> (r: Vec<ReviewIdioma>)
    ensures
        es_top_resenas(todas@, r@),
{
    let mut c: Vec<Candidato> = Vec::new();
    let mut i: usize = 0;
    while i < todas.len()
        invariant
            i <= todas.len(),
            pares_de(c@) == pares_de_resenas(todas@).take(i as int),
        decreases todas.len() - i,
    {
        let ghost antes_c = pares_de(c@);
        c.push(Candidato { cantidad: todas[i].1, nombre: todas[i].0.clone() });
        proof {
            assert(pares_de(c@) =~= antes_c.push((todas[i as int].1, todas[i as int].0@)));
            assert(pares_de(c@) =~= pares_de_resenas(todas@).take(i + 1));
        }
        i = i + 1;
    }
    proof {
        assert(pares_de_resenas(todas@).take(i as int) =~= pares_de_resenas(todas@));
    }
    let sel = mejores(&c, false, TOPE_RESENAS);
    let mut r: Vec<ReviewIdioma> = Vec::new();
    let mut a: usize = 0;
    while a < sel.len()
        invariant
            a <= sel.len(),
            r.len() == a,
            es_seleccion(pares_de_resenas(todas@), false, TOPE_RESENAS as nat, sel@),
            forall|i: int|
                0 <= i < a ==> (#[trigger] r[i]).review@ == todas[sel[i] as int].0@ && r[i].votos
                    == todas[sel[i] as int].1,
        decreases sel.len() - a,
    {
        let s = sel[a];
        r.push(ReviewIdioma { review: todas[s].0.clone(), votos: todas[s].1 });
        a = a + 1;
    }
    r
}

/// The three languages in which a game has the most reviews.
pub fn filtrar_idiomas_de_juego(juego: &Juego) -> (r: Vec<IdiomaPorJuego>)
    ensures
        es_top_idiomas_de(*juego, r@),
{
    let n = juego.idiomas.len();
    let ghost ent = entradas_con(juego.idiomas.entradas(), mostrar());
    let mut c: Vec<Candidato> = Vec::new();
    let mut i: usize = 0;
    while i < n
        invariant
            i <= n,
            n == juego.idiomas.entradas().len(),
            ent == entradas_con(juego.idiomas.entradas(), mostrar()),
            pares_de(c@) == pares_de_entradas(ent).take(i as int),
        decreases n - i,
    {
        let ghost antes_c = pares_de(c@);
        let cantidad = a_u32(*juego.idiomas.valor_en(i));
        let nombre = juego.idiomas.clave_en(i).clone();
        c.push(Candidato { cantidad, nombre });
        proof {
            assert(pares_de(c@) =~= antes_c.push((cantidad, nombre@)));
            assert(pares_de(c@) =~= pares_de_entradas(ent).take(i + 1));
        }
        i = i + 1;
    }
    proof {
        assert(pares_de_entradas(ent).take(i as int) =~= pares_de_entradas(ent));
        lema_con_valores(juego.idiomas.entradas(), mostrar());
    }
    let sel = mejores(&c, true, TOPE_LISTA);
    let mut r: Vec<IdiomaPorJuego> = Vec::new();
    let mut a: usize = 0;
    while a < sel.len()
        invariant
            a <= sel.len(),
            r.len() == a,
            n == juego.idiomas.entradas().len(),
            ent == entradas_con(juego.idiomas.entradas(), mostrar()),
            es_seleccion(pares_de_entradas(ent), true, TOPE_LISTA as nat, sel@),
            filas_de_idiomas_de_juego(r@) == filas_de(ent, sel@).take(a as int),
            forall|i: int|
                0 <= i < a ==> ((#[trigger] r[i]).top_review@, r[i].top_review_votos)
                    == match valor_de(juego.reviews_idiomas@, r[i].idioma@) {
                    Some(p) => (p.0@, p.1),
                    None => (Seq::<char>::empty(), 0u32),
                },
        decreases sel.len() - a,
    {
        let s = sel[a];
        let idioma = juego.idiomas.clave_en(s).clone();
        let reviews = a_u32(*juego.idiomas.valor_en(s));
        let (top_review, top_review_votos) = match juego.reviews_idiomas.get(idioma.as_str()) {
            Some(p) => (p.0.clone(), p.1),
            None => (String::new(), 0),
        };
        let ghost antes_r = filas_de_idiomas_de_juego(r@);
        r.push(IdiomaPorJuego { idioma, reviews, top_review, top_review_votos });
        proof {
            assert(filas_de_idiomas_de_juego(r@) =~= antes_r.push((reviews, idioma@)));
            assert(filas_de_idiomas_de_juego(r@) =~= filas_de(ent, sel@).take(a + 1));
        }
        a = a + 1;
    }
    proof {
        assert(filas_de(ent, sel@).take(a as int) =~= filas_de(ent, sel@));
        lema_seleccion(ent, sel@);
    }
    r
}

impl Output {
    /// The report of the statistics.
    pub fn new(e: &Estadisticas) -> (r: Output)
        ensures
            r.padron == PADRON,
            es_top_juegos(*e, r.top3_juegos@),
            es_top_idiomas(*e, r.top3_idiomas@),
    {
        Output {
            padron: PADRON,
            top3_juegos: Self::filtrar_juegos(e),
            top3_idiomas: Self::filtrar_idiomas(e),
        }
    }

    /// The three games with the most reviews, each with the three
    /// languages in which it has the most.
    pub fn filtrar_juegos(e: &Estadisticas) -> (r: Vec<JuegoMasVotado>)
        ensures
            es_top_juegos(*e, r@),
    {
        let n = e.juegos.len();
        let ghost ent = entradas_con(e.juegos.entradas(), cuenta_de_juego());
        let mut c: Vec<Candidato> = Vec::new();
        let mut i: usize = 0;
        while i < n
            invariant
                i <= n,
                n == e.juegos.entradas().len(),
                ent == entradas_con(e.juegos.entradas(), cuenta_de_juego()),
                pares_de(c@) == pares_de_entradas(ent).take(i as int),
            decreases n - i,
        {
            let ghost antes_c = pares_de(c@);
            let cantidad = a_u32(e.juegos.valor_en(i).reviews);
            let nombre = e.juegos.clave_en(i).clone();
            c.push(Candidato { cantidad, nombre });
            proof {
                assert(pares_de(c@) =~= antes_c.push((cantidad, nombre@)));
                assert(pares_de(c@) =~= pares_de_entradas(ent).take(i + 1));
            }
            i = i + 1;
        }
        proof {
            assert(pares_de_entradas(ent).take(i as int) =~= pares_de_entradas(ent));
            lema_con_valores(e.juegos.entradas(), cuenta_de_juego());
        }
        let sel = mejores(&c, true, TOPE_LISTA);
        let mut r: Vec<JuegoMasVotado> = Vec::new();
        let mut a: usize = 0;
        while a < sel.len()
            invariant
                a <= sel.len(),
                r.len() == a,
                n == e.juegos.entradas().len(),
                claves_distintas(e.juegos.entradas()),
                e.juegos@ == mapa_de(e.juegos.entradas()),
                ent == entradas_con(e.juegos.entradas(), cuenta_de_juego()),
                es_seleccion(pares_de_entradas(ent), true, TOPE_LISTA as nat, sel@),
                filas_de_juegos(r@) == filas_de(ent, sel@).take(a as int),
                forall|i: int|
                    0 <= i < a ==> es_top_idiomas_de(
                        e.juegos@[(#[trigger] r[i]).nombre@],
                        r[i].idiomas@,
                    ),
            decreases sel.len() - a,
        {
            let s = sel[a];
            let nombre = e.juegos.clave_en(s).clone();
            let juego = e.juegos.valor_en(s);
            let reviews = a_u32(juego.reviews);
            let idiomas = filtrar_idiomas_de_juego(juego);
            let ghost antes_r = filas_de_juegos(r@);
            proof {
                lema_mapa_de(e.juegos.entradas(), s as int);
            }
            r.push(JuegoMasVotado { nombre, reviews, idiomas });
            proof {
                assert(filas_de_juegos(r@) =~= antes_r.push((reviews, nombre@)));
                assert(filas_de_juegos(r@) =~= filas_de(ent, sel@).take(a + 1));
            }
            a = a + 1;
        }
        proof {
            assert(filas_de(ent, sel@).take(a as int) =~= filas_de(ent, sel@));
            lema_seleccion(ent, sel@);
        }
        r
    }

    /// The three languages with the most reviews, each with its ten
    /// reviews of the most votes.
    pub fn filtrar_idiomas(e: &Estadisticas) -> (r: Vec<IdiomaMasVotado>)
        ensures
            es_top_idiomas(*e, r@),
    {
        let n = e.idiomas.len();
        let ghost ent = entradas_con(e.idiomas.entradas(), cuenta_de_idioma());
        let mut c: Vec<Candidato> = Vec::new();
        let mut i: usize = 0;
        while i < n
            invariant
                i <= n,
                n == e.idiomas.entradas().len(),
                ent == entradas_con(e.idiomas.entradas(), cuenta_de_idioma()),
                pares_de(c@) == pares_de_entradas(ent).take(i as int),
            decreases n - i,
        {
            let ghost antes_c = pares_de(c@);
            let cantidad = a_u32(e.idiomas.valor_en(i).cantidad_reviews);
            let nombre = e.idiomas.clave_en(i).clone();
            c.push(Candidato { cantidad, nombre });
            proof {
                assert(pares_de(c@) =~= antes_c.push((cantidad, nombre@)));
                assert(pares_de(c@) =~= pares_de_entradas(ent).take(i + 1));
            }
            i = i + 1;
        }
        proof {
            assert(pares_de_entradas(ent).take(i as int) =~= pares_de_entradas(ent));
            lema_con_valores(e.idiomas.entradas(), cuenta_de_idioma());
        }
        let sel = mejores(&c, true, TOPE_LISTA);
        let mut r: Vec<IdiomaMasVotado> = Vec::new();
        let mut a: usize = 0;
        while a < sel.len()
            invariant
                a <= sel.len(),
                r.len() == a,
                n == e.idiomas.entradas().len(),
                claves_distintas(e.idiomas.entradas()),
                e.idiomas@ == mapa_de(e.idiomas.entradas()),
                ent == entradas_con(e.idiomas.entradas(), cuenta_de_idioma()),
                es_seleccion(pares_de_entradas(ent), true, TOPE_LISTA as nat, sel@),
                filas_de_idiomas(r@) == filas_de(ent, sel@).take(a as int),
                forall|i: int|
                    0 <= i < a ==> es_top_resenas(
                        e.idiomas@[(#[trigger] r[i]).idioma@].top_reviews@,
                        r[i].top_reviews@,
                    ),
            decreases sel.len() - a,
        {
            let s = sel[a];
            let idioma = e.idiomas.clave_en(s).clone();
            let datos = e.idiomas.valor_en(s);
            let reviews = a_u32(datos.cantidad_reviews);
            let top_reviews = filtrar_resenas(&datos.top_reviews);
            let ghost antes_r = filas_de_idiomas(r@);
            proof {
                lema_mapa_de(e.idiomas.entradas(), s as int);
            }
            r.push(IdiomaMasVotado { idioma, reviews, top_reviews });
            proof {
                assert(filas_de_idiomas(r@) =~= antes_r.push((reviews, idioma@)));
                assert(filas_de_idiomas(r@) =~= filas_de(ent, sel@).take(a + 1));
            }
            a = a + 1;
        }
        proof {
            assert(filas_de(ent, sel@).take(a as int) =~= filas_de(ent, sel@));
            lema_seleccion(ent, sel@);
        }
        r
    }
}

} // verus!
