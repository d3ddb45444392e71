use csv::StringRecord;
use vstd::prelude::*;

verus! {

/// Where the record of a review holds the name of the game.
pub const POSICION_APP_NAME: usize = 2;

/// Where it holds the language.
pub const POSICION_LANGUAGE: usize = 4;

/// Where it holds the text.
pub const POSICION_REVIEW: usize = 5;

/// Where it holds the number of helpful votes.
pub const POSICION_VOTES_HELPFUL: usize = 9;

/// The votes of a review whose count is no number that fits.
pub const VALOR_DEFAULT_VOTOS: u32 = 0;

/// One review of a game.
#[derive(Debug, Clone)]
pub struct Review {
    pub app_name: String,
    pub language: String,
    pub review: String,
    pub votes_helpful: u32,
}

/// A review, with its texts read as characters.
pub struct ReviewVista {
    pub app_name: Seq<char>,
    pub language: Seq<char>,
    pub review: Seq<char>,
    pub votes_helpful: u32,
}

impl View for Review {
    type V = ReviewVista;

    open spec fn view(&self) -> ReviewVista {
        ReviewVista {
            app_name: self.app_name@,
            language: self.language@,
            review: self.review@,
            votes_helpful: self.votes_helpful,
        }
    }
}

/// One record of a CSV file, as the csv crate holds it.
#[verifier::external_type_specification]
#[verifier::external_body]
pub struct ExStringRecord(csv::StringRecord);

/// The fields of a record, in their order.
pub uninterp spec fn campos(record: StringRecord) -> Seq<Seq<char>>;

/// The number that a text is read as, if it is read as one.
pub uninterp spec fn valor_u32(texto: Seq<char>) -> Option<u32>;

/// `csv::StringRecord::get`: the field at index `i`, and `None` where the
/// record has no such field.
#[verifier::external_body]
fn campo(record: &StringRecord, i: usize) -> (r: Option<&str>)
    ensures
        match r {
            Some(s) => i < campos(*record).len() && s@ == campos(*record)[i as int],
            None => i >= campos(*record).len(),
        },
{
    record.get(i)
}

/// `str::parse::<u32>`: the number that the text spells, where it spells
/// one that fits in 32 bits. Which texts do is std's business, so the
/// result is only named here.
#[verifier::external_body]
fn leer_u32(texto: &str) -> (r: Option<u32>)
    ensures
        r == valor_u32(texto@),
{
    texto.parse::<u32>().ok()
}

/// The votes of a review from what its field was read as.
pub fn votos_o_defecto(leido: Option<u32>) -> (r: u32)
    ensures
        r == match leido {
            Some(v) => v,
            None => VALOR_DEFAULT_VOTOS,
        },
{
    match leido {
        Some(v) => v,
        None => VALOR_DEFAULT_VOTOS,
    }
}

/// The review that four fields make, if all four are there. `votos` is the
/// field of the votes as it was read: a number, or none where the field
/// spells none.
pub open spec fn armar_spec(
    app_name: Option<Seq<char>>,
    language: Option<Seq<char>>,
    review: Option<Seq<char>>,
    votos: Option<Option<u32>>,
) -> Option<ReviewVista> {
    if app_name is Some && language is Some && review is Some && votos is Some {
        Some(
            ReviewVista {
                app_name: app_name->0,
                language: language->0,
                review: review->0,
                votes_helpful: match votos->0 {
                    Some(v) => v,
                    None => VALOR_DEFAULT_VOTOS,
                },
            },
        )
    } else {
        None
    }
}

/// The field of a record at `i`, if it has one.
pub open spec fn campo_spec(record: StringRecord, i: usize) -> Option<Seq<char>> {
    if i < campos(record).len() {
        Some(campos(record)[i as int])
    } else {
        None
    }
}

impl Review {
    /// Makes a review of four fields; `None` where one of them is missing.
    pub fn armar(
        app_name: Option<&str>,
        language: Option<&str>,
        review: Option<&str>,
        votos: Option<Option<u32>>,
    ) -> (r: Option<Review>)
        ensures
            match r {
                Some(x) => Some(x@),
                None => None,
            } == armar_spec(
                match app_name {
                    Some(s) => Some(s@),
                    None => None,
                },
                match language {
                    Some(s) => Some(s@),
                    None => None,
                },
                match review {
                    Some(s) => Some(s@),
                    None => None,
                },
                votos,
            ),
    {
        match (app_name, language, review, votos) {
            (Some(a), Some(l), Some(t), Some(v)) => Some(
                Review {
                    app_name: a.to_owned(),
                    language: l.to_owned(),
                    review: t.to_owned(),
                    votes_helpful: votos_o_defecto(v),
                },
            ),
            _ => None,
        }
    }

    /// Reads a review off a record: the name of the game, the language, the
    /// text and the votes, each from its field. A record that lacks one of
    /// the fields gives no review; votes that are no number count as none.
    pub fn parse_record(record: &StringRecord) -> (r: Option<Review>)
        ensures
            match r {
                Some(x) => Some(x@),
                None => None,
            } == armar_spec(
                campo_spec(*record, POSICION_APP_NAME),
                campo_spec(*record, POSICION_LANGUAGE),
                campo_spec(*record, POSICION_REVIEW),
                match campo_spec(*record, POSICION_VOTES_HELPFUL) {
                    Some(t) => Some(valor_u32(t)),
                    None => None,
                },
            ),
    {
        let votos = match campo(record, POSICION_VOTES_HELPFUL) {
            Some(t) => Some(leer_u32(t)),
            None => None,
        };
        Review::armar(
            campo(record, POSICION_APP_NAME),
            campo(record, POSICION_LANGUAGE),
            campo(record, POSICION_REVIEW),
            votos,
        )
    }
}

} // verus!
