use vstd::prelude::*;

verus! {

/// A game as a report shows it.
#[derive(Debug)]
pub struct JuegoMasVotado {
    pub nombre: String,
    pub reviews: u32,
    pub idiomas: Vec<IdiomaPorJuego>,
}

/// A language of a game as a report shows it, with the best review that
/// the game has in it.
#[derive(Debug)]
pub struct IdiomaPorJuego {
    pub idioma: String,
    pub reviews: u32,
    pub top_review: String,
    pub top_review_votos: u32,
}

} // verus!
