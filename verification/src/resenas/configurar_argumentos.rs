use vstd::prelude::*;
use vstd::string::{StrSliceExecFns, StringExecFns};

verus! {

/// How many words a command line has: the program and three arguments.
pub const ARGUMENTOS_ESPERADOS: usize = 4;

/// Where the command line holds the directory of the reviews.
pub const RUTA_DATASET: usize = 1;

/// Where it holds the number of threads.
pub const N_THREADS: usize = 2;

/// Where it holds the name of the report.
pub const ARCHIVO_SALIDA: usize = 3;

/// What the command line asks for: where the reviews are, how many threads
/// read them, and where the report goes.
#[derive(Debug)]
pub struct Argumentos {
    pub ruta: String,
    pub n_threads: usize,
    pub archivo_salida: String,
}

/// The number that a text is read as, if it is read as one.
pub uninterp spec fn valor_usize(texto: Seq<char>) -> Option<usize>;

/// `str::parse::<usize>`: the number that the text spells, where it spells
/// one that fits in a word. Which texts do is std's business, so the result
/// is only named here.
#[verifier::external_body]
fn leer_usize(texto: &str) -> (r: Option<usize>)
    ensures
        r == valor_usize(texto@),
{
    texto.parse::<usize>().ok()
}

/// Whether `s` ends in `sufijo`.
pub open spec fn termina_en_spec(s: Seq<char>, sufijo: Seq<char>) -> bool {
    sufijo.len() <= s.len() && s.subrange(s.len() - sufijo.len(), s.len() as int) == sufijo
}

/// Computes whether `s` ends in `sufijo`.
pub fn termina_en(s: &str, sufijo: &str) -> (r: bool)
    ensures
        r == termina_en_spec(s@, sufijo@),
{
    let n = s.unicode_len();
    let m = sufijo.unicode_len();
    if m > n {
        return false;
    }
    let base = n - m;
    let mut i: usize = 0;
    while i < m
        invariant
            i <= m,
            m == sufijo@.len(),
            n == s@.len(),
            base == n - m,
            forall|j: int| 0 <= j < i ==> s@[base + j] == sufijo@[j],
        decreases m - i,
    {
        if s.get_char(base + i) != sufijo.get_char(i) {
            assert(s@.subrange(base as int, n as int)[i as int] != sufijo@[i as int]);
            return false;
        }
        i = i + 1;
    }
    assert(s@.subrange(base as int, n as int) =~= sufijo@);
    true
}

/// The name of the report: the name that was asked for, with `.json` added
/// where it does not end in it.
pub open spec fn con_extension(nombre: Seq<char>) -> Seq<char> {
    if termina_en_spec(nombre, ".json"@) {
        nombre
    } else {
        nombre + ".json"@
    }
}

/// The threads to use for what the argument was read as: one where it
/// spells no number.
pub fn hilos(leido: Option<usize>) -> (r: usize)
    ensures
        r == match leido {
            Some(n) => n,
            None => 1,
        },
{
    match leido {
        Some(n) => n,
        None => 1,
    }
}

/// Reads the words of a command line; `None` where they are not four.
pub fn parsear_argumentos(args: &Vec<String>) -> (r: Option<Argumentos>)
    ensures
        args.len() != ARGUMENTOS_ESPERADOS <==> r is None,
        r matches Some(a) ==> {
            &&& a.ruta@ == args[RUTA_DATASET as int]@
            &&& a.n_threads == match valor_usize(args[N_THREADS as int]@) {
                Some(n) => n,
                None => 1,
            }
            &&& a.archivo_salida@ == con_extension(args[ARCHIVO_SALIDA as int]@)
        },
{
    if args.len() != ARGUMENTOS_ESPERADOS {
        return None;
    }
    let ruta = args[RUTA_DATASET].clone();
    let n_threads = hilos(leer_usize(args[N_THREADS].as_str()));
    let mut archivo_salida = args[ARCHIVO_SALIDA].clone();
    if !termina_en(archivo_salida.as_str(), ".json") {
        archivo_salida.append(".json");
    }
    Some(Argumentos { ruta, n_threads, archivo_salida })
}

} // verus!
