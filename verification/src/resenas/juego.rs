use crate::utils::diccionario::{con_valores, Diccionario};
use vstd::prelude::*;

verus! {

/// What is known of a game: how many reviews it has, how many in each
/// language, and for each language the review with the most votes.
#[derive(Debug)]
pub struct Juego {
    pub reviews: usize,
    pub idiomas: Diccionario<usize>,
    pub reviews_idiomas: Diccionario<(String, u32)>,
}

/// A game, with its texts read as characters.
pub struct JuegoVista {
    pub reviews: usize,
    pub idiomas: Map<Seq<char>, usize>,
    pub reviews_idiomas: Map<Seq<char>, (Seq<char>, u32)>,
}

impl JuegoVista {
    /// A game of which nothing is known yet.
    pub open spec fn vacio() -> JuegoVista {
        JuegoVista { reviews: 0, idiomas: Map::empty(), reviews_idiomas: Map::empty() }
    }
}

/// How the best review of a language is seen: its text as characters.
pub open spec fn ver_mejor() -> spec_fn((String, u32)) -> (Seq<char>, u32) {
    |p: (String, u32)| (p.0@, p.1)
}

impl View for Juego {
    type V = JuegoVista;

    open spec fn view(&self) -> JuegoVista {
        JuegoVista {
            reviews: self.reviews,
            idiomas: self.idiomas@,
            reviews_idiomas: con_valores(self.reviews_idiomas@, ver_mejor()),
        }
    }
}

impl Default for Juego {
    fn default() -> (r: Juego)
        ensures
            r@ == JuegoVista::vacio(),
    {
        let r = Juego { reviews: 0, idiomas: Diccionario::new(), reviews_idiomas: Diccionario::new() };
        assert(r@.reviews_idiomas =~= Map::empty());
        r
    }
}

} // verus!
