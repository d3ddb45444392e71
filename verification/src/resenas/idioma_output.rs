use vstd::prelude::*;

verus! {

/// A language as a report shows it.
#[derive(Debug)]
pub struct IdiomaMasVotado {
    pub idioma: String,
    pub reviews: u32,
    pub top_reviews: Vec<ReviewIdioma>,
}

/// A review as a report shows it.
#[derive(Debug)]
pub struct ReviewIdioma {
    pub review: String,
    pub votos: u32,
}

} // verus!
