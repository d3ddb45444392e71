use crate::utils::diccionario::{
    claves_distintas, con_valores, entradas_con, fusion, fusion_libre, lema_con_valores,
    lema_fusion_libre, mapa_de, valor_de, Diccionario,
};
use crate::resenas::idioma::{vista_de_resenas, Idioma, IdiomaVista};
use crate::resenas::juego::{ver_mejor, Juego, JuegoVista};
use crate::resenas::review::{Review, ReviewVista};
use vstd::prelude::*;

verus! {

/// What the reviews read so far say of games and of languages.
#[derive(Debug)]
pub struct Estadisticas {
    pub juegos: Diccionario<Juego>,
    pub idiomas: Diccionario<Idioma>,
}

/// The statistics, with their texts read as characters.
pub struct EstadisticasVista {
    pub juegos: Map<Seq<char>, JuegoVista>,
    pub idiomas: Map<Seq<char>, IdiomaVista>,
}

/// How a game is seen.
pub open spec fn ver_juego() -> spec_fn(Juego) -> JuegoVista {
    |j: Juego| j@
}

/// How a language is seen.
pub open spec fn ver_idioma() -> spec_fn(Idioma) -> IdiomaVista {
    |i: Idioma| i@
}

impl View for Estadisticas {
    type V = EstadisticasVista;

    open spec fn view(&self) -> EstadisticasVista {
        EstadisticasVista {
            juegos: con_valores(self.juegos@, ver_juego()),
            idiomas: con_valores(self.idiomas@, ver_idioma()),
        }
    }
}

impl Default for Estadisticas {
    fn default() -> (r: Estadisticas)
        ensures
            r@ == EstadisticasVista::vacias(),
    {
        let r = Estadisticas { juegos: Diccionario::new(), idiomas: Diccionario::new() };
        assert(r@.juegos =~= Map::empty());
        assert(r@.idiomas =~= Map::empty());
        r
    }
}

/// The count of a language after `nueva` more reviews; counts wrap round
/// at the word size.
pub open spec fn sumar_cuenta() -> spec_fn(Option<usize>, usize) -> usize {
    |previa: Option<usize>, nueva: usize|
        match previa {
            Some(c) => c.wrapping_add(nueva),
            None => nueva,
        }
}

/// The better of two reviews: the new one where it has strictly more votes.
pub open spec fn mejor_resena() -> spec_fn(Option<(Seq<char>, u32)>, (Seq<char>, u32)) -> (
    Seq<char>,
    u32,
) {
    |previa: Option<(Seq<char>, u32)>, nueva: (Seq<char>, u32)|
        match previa {
            Some(p) => if nueva.1 > p.1 {
                nueva
            } else {
                p
            },
            None => nueva,
        }
}

/// Two bodies of knowledge of one game, taken together.
pub open spec fn unir_juegos(x: JuegoVista, y: JuegoVista) -> JuegoVista {
    JuegoVista {
        reviews: x.reviews.wrapping_add(y.reviews),
        idiomas: fusion_libre(x.idiomas, y.idiomas, sumar_cuenta()),
        reviews_idiomas: fusion_libre(x.reviews_idiomas, y.reviews_idiomas, mejor_resena()),
    }
}

/// Two bodies of knowledge of one language, taken together.
pub open spec fn unir_idiomas(x: IdiomaVista, y: IdiomaVista) -> IdiomaVista {
    IdiomaVista {
        cantidad_reviews: x.cantidad_reviews.wrapping_add(y.cantidad_reviews),
        top_reviews: x.top_reviews + y.top_reviews,
    }
}

/// What is known of a game once more is learnt of it.
pub open spec fn combinar_juego() -> spec_fn(Option<JuegoVista>, JuegoVista) -> JuegoVista {
    |previo: Option<JuegoVista>, nuevo: JuegoVista|
        unir_juegos(
            match previo {
                Some(x) => x,
                None => JuegoVista::vacio(),
            },
            nuevo,
        )
}

/// What is known of a language once more is learnt of it.
pub open spec fn combinar_idioma() -> spec_fn(Option<IdiomaVista>, IdiomaVista) -> IdiomaVista {
    |previo: Option<IdiomaVista>, nuevo: IdiomaVista|
        unir_idiomas(
            match previo {
                Some(x) => x,
                None => IdiomaVista::vacio(),
            },
            nuevo,
        )
}

impl EstadisticasVista {
    /// Statistics of no review at all.
    pub open spec fn vacias() -> EstadisticasVista {
        EstadisticasVista { juegos: Map::empty(), idiomas: Map::empty() }
    }

    /// What one review teaches of its game: one review more, one more in
    /// its language, and a new best review of the language where it has
    /// strictly more votes than the best so far.
    pub open spec fn juego_tras(self, r: ReviewVista) -> JuegoVista {
        juego_con(
            match valor_de(self.juegos, r.app_name) {
                Some(j) => j,
                None => JuegoVista::vacio(),
            },
            r,
        )
    }

    /// What one review teaches of its language: one review more, kept with
    /// its votes where it has any.
    pub open spec fn idioma_tras(self, r: ReviewVista) -> IdiomaVista {
        let i = match valor_de(self.idiomas, r.language) {
            Some(i) => i,
            None => IdiomaVista::vacio(),
        };
        IdiomaVista {
            cantidad_reviews: i.cantidad_reviews.wrapping_add(1),
            top_reviews: if r.votes_helpful > 0 {
                i.top_reviews.push((r.review, r.votes_helpful))
            } else {
                i.top_reviews
            },
        }
    }

    /// The statistics with one review more.
    pub open spec fn agregar_review(self, r: ReviewVista) -> EstadisticasVista {
        EstadisticasVista {
            juegos: self.juegos.insert(r.app_name, self.juego_tras(r)),
            idiomas: self.idiomas.insert(r.language, self.idioma_tras(r)),
        }
    }

    /// The statistics of two bodies of reviews, taken together.
    pub open spec fn combinar(self, otra: EstadisticasVista) -> EstadisticasVista {
        EstadisticasVista {
            juegos: fusion_libre(self.juegos, otra.juegos, combinar_juego()),
            idiomas: fusion_libre(self.idiomas, otra.idiomas, combinar_idioma()),
        }
    }
}

impl Estadisticas {
    /// Takes one review into the statistics.
    pub fn agregar_review(&mut self, review: Review)
        ensures
            final(self)@ == old(self)@.agregar_review(review@),
    {
        let ghost v0 = self@;
        let mut juego = match self.juegos.remove(review.app_name.as_str()) {
            Some(j) => j,
            None => Juego::default(),
        };
        let ghost j0 = juego@;
        assert(j0 == match valor_de(v0.juegos, review.app_name@) {
            Some(j) => j,
            None => JuegoVista::vacio(),
        });
        juego.reviews = juego.reviews.wrapping_add(1);
        let cuenta = match juego.idiomas.get(review.language.as_str()) {
            Some(c) => c.wrapping_add(1),
            None => 1,
        };
        juego.idiomas.insert(review.language.clone(), cuenta);
        let reemplaza = match juego.reviews_idiomas.get(review.language.as_str()) {
            Some(p) => review.votes_helpful > p.1,
            None => true,
        };
        if reemplaza {
            juego.reviews_idiomas.insert(
                review.language.clone(),
                (review.review.clone(), review.votes_helpful),
            );
        }
        proof {
            assert(juego@.reviews_idiomas =~= v0.juego_tras(review@).reviews_idiomas);
            assert(juego@ == v0.juego_tras(review@));
        }
        self.juegos.insert(review.app_name.clone(), juego);
        let mut idioma = match self.idiomas.remove(review.language.as_str()) {
            Some(i) => i,
            None => Idioma::default(),
        };
        idioma.cantidad_reviews = idioma.cantidad_reviews.wrapping_add(1);
        if review.votes_helpful > 0 {
            let ghost antes = idioma@.top_reviews;
            idioma.top_reviews.push((review.review, review.votes_helpful));
            assert(idioma@.top_reviews =~= antes.push((review.review@, review.votes_helpful)));
        }
        proof {
            assert(idioma@ == v0.idioma_tras(review@));
        }
        self.idiomas.insert(review.language, idioma);
        proof {
            assert(self@.juegos =~= v0.agregar_review(review@).juegos);
            assert(self@.idiomas =~= v0.agregar_review(review@).idiomas);
        }
    }
}

/// Adds the counts of `y` to those of `x`, language by language.
fn sumar_cuentas(x: Diccionario<usize>, y: &Diccionario<usize>) -> (r: Diccionario<usize>)
    ensures
        r@ == fusion_libre(x@, y@, sumar_cuenta()),
{
    let ghost x0 = x@;
    let mut r = x;
    let n = y.len();
    let mut i: usize = 0;
    while i < n
        invariant
            i <= n,
            n == y.entradas().len(),
            claves_distintas(y.entradas()),
            y@ == mapa_de(y.entradas()),
            r@ == fusion(x0, y.entradas(), i as nat, sumar_cuenta()),
        decreases n - i,
    {
        let k = y.clave_en(i);
        let c = *y.valor_en(i);
        let nuevo = match r.get(k.as_str()) {
            Some(p) => p.wrapping_add(c),
            None => c,
        };
        r.insert(k.clone(), nuevo);
        i = i + 1;
    }
    proof {
        lema_fusion_libre(x0, y.entradas(), sumar_cuenta());
    }
    r
}

/// Keeps, language by language, the better of the best reviews of `x` and
/// of `y`.
fn mejores_resenas(
    x: Diccionario<(String, u32)>,
    y: &Diccionario<(String, u32)>,
) -> (r: Diccionario<
    (String, u32),
>)
    ensures
        con_valores(r@, ver_mejor()) == fusion_libre(
            con_valores(x@, ver_mejor()),
            con_valores(y@, ver_mejor()),
            mejor_resena(),
        ),
{
    let ghost x0 = con_valores(x@, ver_mejor());
    let ghost s = entradas_con(y.entradas(), ver_mejor());
    let mut r = x;
    let n = y.len();
    let mut i: usize = 0;
    while i < n
        invariant
            i <= n,
            n == y.entradas().len(),
            claves_distintas(y.entradas()),
            y@ == mapa_de(y.entradas()),
            s == entradas_con(y.entradas(), ver_mejor()),
            con_valores(r@, ver_mejor()) == fusion(x0, s, i as nat, mejor_resena()),
        decreases n - i,
    {
        let k = y.clave_en(i);
        let p = y.valor_en(i);
        let ghost antes = con_valores(r@, ver_mejor());
        let reemplaza = match r.get(k.as_str()) {
            Some(q) => p.1 > q.1,
            None => true,
        };
        if reemplaza {
            r.insert(k.clone(), (p.0.clone(), p.1));
        }
        proof {
            let e = s[i as int];
            assert(e == (k@, (p.0@, p.1)));
            assert(con_valores(r@, ver_mejor()) =~= antes.insert(
                e.0,
                mejor_resena()(valor_de(antes, e.0), e.1),
            ));
        }
        i = i + 1;
    }
    proof {
        lema_con_valores(y.entradas(), ver_mejor());
        lema_fusion_libre(x0, s, mejor_resena());
    }
    r
}

/// What is known of a game from two bodies of reviews.
fn unir_juego(x: Juego, y: &Juego) -> (r: Juego)
    ensures
        r@ == unir_juegos(x@, y@),
{
    let Juego { reviews, idiomas, reviews_idiomas } = x;
    Juego {
        reviews: reviews.wrapping_add(y.reviews),
        idiomas: sumar_cuentas(idiomas, &y.idiomas),
        reviews_idiomas: mejores_resenas(reviews_idiomas, &y.reviews_idiomas),
    }
}

/// What is known of a language from two bodies of reviews.
fn unir_idioma(x: Idioma, y: &Idioma) -> (r: Idioma)
    ensures
        r@ == unir_idiomas(x@, y@),
{
    let Idioma { cantidad_reviews, top_reviews } = x;
    let ghost t0 = vista_de_resenas(top_reviews@);
    let mut top = top_reviews;
    let mut i: usize = 0;
    while i < y.top_reviews.len()
        invariant
            i <= y.top_reviews.len(),
            vista_de_resenas(top@) == t0 + vista_de_resenas(y.top_reviews@).take(i as int),
        decreases y.top_reviews.len() - i,
    {
        let ghost antes = vista_de_resenas(top@);
        let p = &y.top_reviews[i];
        top.push((p.0.clone(), p.1));
        proof {
            let ys = vista_de_resenas(y.top_reviews@);
            assert(vista_de_resenas(top@) =~= antes.push((p.0@, p.1)));
            assert(ys.take(i + 1) =~= ys.take(i as int).push(ys[i as int]));
            assert(vista_de_resenas(top@) =~= t0 + ys.take(i + 1));
        }
        i = i + 1;
    }
    proof {
        let ys = vista_de_resenas(y.top_reviews@);
        assert(ys.take(i as int) =~= ys);
    }
    Idioma { cantidad_reviews: cantidad_reviews.wrapping_add(y.cantidad_reviews), top_reviews: top }
}

/// Takes two bodies of statistics together: what either knows of a game
/// or a language, and the sum of both where both know of it.
pub fn combinar_estadisticas(a: Estadisticas, b: Estadisticas) -> (r: Estadisticas)
    ensures
        r@ == a@.combinar(b@),
{
    let ghost a0 = a@;
    let Estadisticas { juegos, idiomas } = a;
    let mut juegos = juegos;
    let mut idiomas = idiomas;
    let ghost sj = entradas_con(b.juegos.entradas(), ver_juego());
    let n = b.juegos.len();
    let mut i: usize = 0;
    while i < n
        invariant
            i <= n,
            n == b.juegos.entradas().len(),
            claves_distintas(b.juegos.entradas()),
            b.juegos@ == mapa_de(b.juegos.entradas()),
            sj == entradas_con(b.juegos.entradas(), ver_juego()),
            con_valores(juegos@, ver_juego()) == fusion(a0.juegos, sj, i as nat, combinar_juego()),
        decreases n - i,
    {
        let k = b.juegos.clave_en(i);
        let jb = b.juegos.valor_en(i);
        let ghost antes = con_valores(juegos@, ver_juego());
        let previo = match juegos.remove(k.as_str()) {
            Some(j) => j,
            None => Juego::default(),
        };
        let nuevo = unir_juego(previo, jb);
        juegos.insert(k.clone(), nuevo);
        proof {
            let e = sj[i as int];
            assert(e == (k@, jb@));
            assert(con_valores(juegos@, ver_juego()) =~= antes.insert(
                e.0,
                combinar_juego()(valor_de(antes, e.0), e.1),
            ));
        }
        i = i + 1;
    }
    let ghost si = entradas_con(b.idiomas.entradas(), ver_idioma());
    let m = b.idiomas.len();
    let mut l: usize = 0;
    while l < m
        invariant
            l <= m,
            m == b.idiomas.entradas().len(),
            claves_distintas(b.idiomas.entradas()),
            b.idiomas@ == mapa_de(b.idiomas.entradas()),
            si == entradas_con(b.idiomas.entradas(), ver_idioma()),
            con_valores(idiomas@, ver_idioma()) == fusion(a0.idiomas, si, l as nat, combinar_idioma()),
        decreases m - l,
    {
        let k = b.idiomas.clave_en(l);
        let ib = b.idiomas.valor_en(l);
        let ghost antes = con_valores(idiomas@, ver_idioma());
        let previo = match idiomas.remove(k.as_str()) {
            Some(x) => x,
            None => Idioma::default(),
        };
        let nuevo = unir_idioma(previo, ib);
        idiomas.insert(k.clone(), nuevo);
        proof {
            let e = si[l as int];
            assert(e == (k@, ib@));
            assert(con_valores(idiomas@, ver_idioma()) =~= antes.insert(
                e.0,
                combinar_idioma()(valor_de(antes, e.0), e.1),
            ));
        }
        l = l + 1;
    }
    proof {
        lema_con_valores(b.juegos.entradas(), ver_juego());
        lema_fusion_libre(a0.juegos, sj, combinar_juego());
        lema_con_valores(b.idiomas.entradas(), ver_idioma());
        lema_fusion_libre(a0.idiomas, si, combinar_idioma());
    }
    Estadisticas { juegos, idiomas }
}

/// What is known of a game after one more review of it.
pub open spec fn juego_con(j: JuegoVista, r: ReviewVista) -> JuegoVista {
    JuegoVista {
        reviews: j.reviews.wrapping_add(1),
        idiomas: j.idiomas.insert(
            r.language,
            match valor_de(j.idiomas, r.language) {
                Some(c) => c.wrapping_add(1),
                None => 1,
            },
        ),
        reviews_idiomas: j.reviews_idiomas.insert(
            r.language,
            mejor_resena()(valor_de(j.reviews_idiomas, r.language), (r.review, r.votes_helpful)),
        ),
    }
}

/// Learning of a review after two bodies of knowledge of a game were taken
/// together is the same as learning of it in the second body first.
proof fn lema_unir_juegos(x: JuegoVista, y: JuegoVista, r: ReviewVista)
    ensures
        unir_juegos(x, juego_con(y, r)) == juego_con(unir_juegos(x, y), r),
        unir_juegos(x, JuegoVista::vacio()) == x,
{
    let a = unir_juegos(x, juego_con(y, r));
    let b = juego_con(unir_juegos(x, y), r);
    assert(a.idiomas =~= b.idiomas);
    assert(a.reviews_idiomas =~= b.reviews_idiomas);
    let c = unir_juegos(x, JuegoVista::vacio());
    assert(c.idiomas =~= x.idiomas);
    assert(c.reviews_idiomas =~= x.reviews_idiomas);
}

/// Statistics that are taken together with none are what they were.
pub proof fn ley_combinar_vacias(x: EstadisticasVista)
    ensures
        x.combinar(EstadisticasVista::vacias()) == x,
{
    let c = x.combinar(EstadisticasVista::vacias());
    assert(c.juegos =~= x.juegos);
    assert(c.idiomas =~= x.idiomas);
}

/// A review may be taken in before or after two bodies of statistics are
/// taken together: the outcome is the same.
pub proof fn ley_combinar_agrega(x: EstadisticasVista, y: EstadisticasVista, r: ReviewVista)
    ensures
        x.combinar(y.agregar_review(r)) == x.combinar(y).agregar_review(r),
{
    let a = x.combinar(y.agregar_review(r));
    let xy = x.combinar(y);
    let b = xy.agregar_review(r);
    let xj = match valor_de(x.juegos, r.app_name) {
        Some(j) => j,
        None => JuegoVista::vacio(),
    };
    let yj = match valor_de(y.juegos, r.app_name) {
        Some(j) => j,
        None => JuegoVista::vacio(),
    };
    lema_unir_juegos(xj, yj, r);
    assert(y.juego_tras(r) == juego_con(yj, r));
    assert(a.juegos[r.app_name] == unir_juegos(xj, juego_con(yj, r)));
    assert(xy.juego_tras(r) == juego_con(unir_juegos(xj, yj), r)) by {
        if !y.juegos.contains_key(r.app_name) && !x.juegos.contains_key(r.app_name) {
            lema_unir_juegos(JuegoVista::vacio(), JuegoVista::vacio(), r);
        }
    }
    assert(a.juegos =~= b.juegos);
    let xi = match valor_de(x.idiomas, r.language) {
        Some(i) => i,
        None => IdiomaVista::vacio(),
    };
    let yi = match valor_de(y.idiomas, r.language) {
        Some(i) => i,
        None => IdiomaVista::vacio(),
    };
    assert(a.idiomas[r.language].top_reviews =~= b.idiomas[r.language].top_reviews) by {
        assert(xi.top_reviews + yi.top_reviews.push((r.review, r.votes_helpful)) =~= (xi.top_reviews
            + yi.top_reviews).push((r.review, r.votes_helpful)));
        assert(xi.top_reviews + Seq::<(Seq<char>, u32)>::empty() =~= xi.top_reviews);
    }
    assert(a.idiomas =~= b.idiomas);
}

} // verus!
