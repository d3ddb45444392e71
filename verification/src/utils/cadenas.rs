use vstd::prelude::*;
use vstd::string::StrSliceExecFns;

verus! {

/// Whether two strings hold the same characters.
pub fn iguales(a: &str, b: &str) -> (r: bool)
    ensures
        r == (a@ == b@),
{
    let n = a.unicode_len();
    if n != b.unicode_len() {
        return false;
    }
    let mut i: usize = 0;
    while i < n
        invariant
            i <= n,
            n == a@.len(),
            n == b@.len(),
            forall|j: int| 0 <= j < i ==> a@[j] == b@[j],
        decreases n - i,
    {
        if a.get_char(i) != b.get_char(i) {
            return false;
        }
        i = i + 1;
    }
    assert(a@ =~= b@);
    true
}

/// What is left of a line once the white space at both ends is taken off.
pub uninterp spec fn recortada(linea: Seq<char>) -> Seq<char>;

/// `str::trim`: the slice of `linea` without leading and trailing white
/// space. Which characters count as white space is Unicode's business, so the
/// result is only named here.
#[verifier::external_body]
pub(crate) fn recortar(linea: &str) -> (r: &str)
    ensures
        r@ == recortada(linea@),
{
    linea.trim()
}

} // verus!
