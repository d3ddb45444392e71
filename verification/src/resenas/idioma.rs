use vstd::prelude::*;

verus! {

/// What is known of a language: how many reviews were written in it, and
/// those of them that somebody found helpful, with their votes.
#[derive(Debug)]
pub struct Idioma {
    pub cantidad_reviews: usize,
    pub top_reviews: Vec<(String, u32)>,
}

/// A language, with its texts read as characters.
pub struct IdiomaVista {
    pub cantidad_reviews: usize,
    pub top_reviews: Seq<(Seq<char>, u32)>,
}

impl IdiomaVista {
    /// A language of which nothing is known yet.
    pub open spec fn vacio() -> IdiomaVista {
        IdiomaVista { cantidad_reviews: 0, top_reviews: Seq::empty() }
    }
}

/// Reviews with their votes, the texts read as characters.
pub open spec fn vista_de_resenas(v: Seq<(String, u32)>) -> Seq<(Seq<char>, u32)> {
    Seq::new(v.len(), |i: int| (v[i].0@, v[i].1))
}

impl View for Idioma {
    type V = IdiomaVista;

    open spec fn view(&self) -> IdiomaVista {
        IdiomaVista {
            cantidad_reviews: self.cantidad_reviews,
            top_reviews: vista_de_resenas(self.top_reviews@),
        }
    }
}

impl Default for Idioma {
    fn default() -> (r: Idioma)
        ensures
            r@ == IdiomaVista::vacio(),
    {
        let r = Idioma { cantidad_reviews: 0, top_reviews: Vec::new() };
        assert(r@.top_reviews =~= Seq::empty());
        r
    }
}

} // verus!
