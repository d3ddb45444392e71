use crate::utils::cadenas::iguales;
use vstd::prelude::*;

verus! {

/// No two entries have the same key.
pub open spec fn claves_distintas<V>(s: Seq<(Seq<char>, V)>) -> bool {
    forall|i: int, j: int| 0 <= i < j < s.len() ==> s[i].0 != s[j].0
}

/// Some entry of `s` has the key `k`.
pub open spec fn tiene_clave<V>(s: Seq<(Seq<char>, V)>, k: Seq<char>) -> bool {
    exists|i: int| 0 <= i < s.len() && (#[trigger] s[i]).0 == k
}

/// The place of the key `k` among the entries.
pub open spec fn indice_de<V>(s: Seq<(Seq<char>, V)>, k: Seq<char>) -> int {
    choose|i: int| 0 <= i < s.len() && (#[trigger] s[i]).0 == k
}

/// The entries as a map from key to value.
pub open spec fn mapa_de<V>(s: Seq<(Seq<char>, V)>) -> Map<Seq<char>, V> {
    Map::new(|k: Seq<char>| tiene_clave(s, k), |k: Seq<char>| s[indice_de(s, k)].1)
}

/// Where keys are distinct, the entry at `i` is what the map holds under
/// its key.
pub proof fn lema_mapa_de<V>(s: Seq<(Seq<char>, V)>, i: int)
    requires
        claves_distintas(s),
        0 <= i < s.len(),
    ensures
        mapa_de(s).contains_key(s[i].0),
        mapa_de(s)[s[i].0] == s[i].1,
        indice_de(s, s[i].0) == i,
{
    let k = s[i].0;
    assert(tiene_clave(s, k));
    let j = indice_de(s, k);
    if j < i {
        assert(s[j].0 != s[i].0);
    }
    if i < j {
        assert(s[i].0 != s[j].0);
    }
}

/// The value under `k`, if there is one.
pub open spec fn valor_de<V>(m: Map<Seq<char>, V>, k: Seq<char>) -> Option<V> {
    if m.contains_key(k) {
        Some(m[k])
    } else {
        None
    }
}

/// The map `m` after the first `n` entries of `s` were merged into it, one
/// after the other: each entry puts under its key what `f` makes of the
/// value that was there, if any, and of its own.
pub open spec fn fusion<V>(
    m: Map<Seq<char>, V>,
    s: Seq<(Seq<char>, V)>,
    n: nat,
    f: spec_fn(Option<V>, V) -> V,
) -> Map<Seq<char>, V>
    decreases n,
{
    if n == 0 {
        m
    } else {
        let antes = fusion(m, s, (n - 1) as nat, f);
        let e = s[n - 1];
        antes.insert(e.0, f(valor_de(antes, e.0), e.1))
    }
}

/// Merging entries with distinct keys does not depend on their order: a
/// key of `m` only keeps its value, and every key of an entry gets what `f`
/// makes of the value that `m` had for it, if any, and of the entry's.
pub proof fn lema_fusion<V>(
    m: Map<Seq<char>, V>,
    s: Seq<(Seq<char>, V)>,
    n: nat,
    f: spec_fn(Option<V>, V) -> V,
)
    requires
        claves_distintas(s),
        n <= s.len(),
    ensures
        forall|k: Seq<char>|
            fusion(m, s, n, f).contains_key(k) <==> m.contains_key(k) || tiene_clave(s.take(n as int), k),
        forall|k: Seq<char>|
            m.contains_key(k) && !tiene_clave(s.take(n as int), k) ==> fusion(m, s, n, f)[k] == m[k],
        forall|i: int|
            0 <= i < n ==> fusion(m, s, n, f)[(#[trigger] s[i]).0] == f(valor_de(m, s[i].0), s[i].1),
    decreases n,
{
    if n > 0 {
        lema_fusion(m, s, (n - 1) as nat, f);
        let antes = fusion(m, s, (n - 1) as nat, f);
        let e = s[n - 1];
        let t0 = s.take(n - 1);
        let t1 = s.take(n as int);
        assert forall|k: Seq<char>| tiene_clave(t1, k) <==> tiene_clave(t0, k) || k == e.0 by {
            if tiene_clave(t1, k) {
                let i = indice_de(t1, k);
                if i < n - 1 {
                    assert(t0[i].0 == k);
                }
            }
            if tiene_clave(t0, k) {
                let i = indice_de(t0, k);
                assert(t1[i].0 == k);
            }
            if k == e.0 {
                assert(t1[n - 1].0 == k);
            }
        }
        assert(!tiene_clave(t0, e.0)) by {
            if tiene_clave(t0, e.0) {
                let i = indice_de(t0, e.0);
                assert(s[i].0 != s[n - 1].0);
            }
        }
        assert(valor_de(antes, e.0) == valor_de(m, e.0));
        assert forall|i: int| 0 <= i < n implies fusion(m, s, n, f)[(#[trigger] s[i]).0] == f(
            valor_de(m, s[i].0),
            s[i].1,
        ) by {
            if i < n - 1 {
                assert(s[i].0 != s[n - 1].0);
            }
        }
    } else {
        assert forall|k: Seq<char>| !tiene_clave(s.take(0), k) by {}
    }
}

/// The map `m` after the map `n` was merged into it: a key of `m` only
/// keeps its value, and every key of `n` gets what `f` makes of the value
/// that `m` had for it, if any, and of the value that `n` has.
pub open spec fn fusion_libre<V>(
    m: Map<Seq<char>, V>,
    n: Map<Seq<char>, V>,
    f: spec_fn(Option<V>, V) -> V,
) -> Map<Seq<char>, V> {
    Map::new(
        |k: Seq<char>| m.contains_key(k) || n.contains_key(k),
        |k: Seq<char>|
            if n.contains_key(k) {
                f(valor_de(m, k), n[k])
            } else {
                m[k]
            },
    )
}

/// Merging all entries of `s` one after the other is merging their map.
pub proof fn lema_fusion_libre<V>(
    m: Map<Seq<char>, V>,
    s: Seq<(Seq<char>, V)>,
    f: spec_fn(Option<V>, V) -> V,
)
    requires
        claves_distintas(s),
    ensures
        fusion(m, s, s.len(), f) == fusion_libre(m, mapa_de(s), f),
{
    lema_fusion(m, s, s.len(), f);
    assert(s.take(s.len() as int) =~= s);
    let a = fusion(m, s, s.len(), f);
    let b = fusion_libre(m, mapa_de(s), f);
    assert forall|k: Seq<char>| a.contains_key(k) implies a[k] == b[k] by {
        if tiene_clave(s, k) {
            let i = indice_de(s, k);
            lema_mapa_de(s, i);
        }
    }
    assert(a =~= b);
}

/// A map with every value seen through `g`.
pub open spec fn con_valores<V, W>(m: Map<Seq<char>, V>, g: spec_fn(V) -> W) -> Map<Seq<char>, W> {
    Map::new(|k: Seq<char>| m.contains_key(k), |k: Seq<char>| g(m[k]))
}

/// Entries with every value seen through `g`.
pub open spec fn entradas_con<V, W>(
    s: Seq<(Seq<char>, V)>,
    g: spec_fn(V) -> W,
) -> Seq<(Seq<char>, W)> {
    Seq::new(s.len(), |i: int| (s[i].0, g(s[i].1)))
}

/// Seeing values through `g` and reading entries as a map commute.
pub proof fn lema_con_valores<V, W>(s: Seq<(Seq<char>, V)>, g: spec_fn(V) -> W)
    requires
        claves_distintas(s),
    ensures
        claves_distintas(entradas_con(s, g)),
        mapa_de(entradas_con(s, g)) == con_valores(mapa_de(s), g),
{
    let t = entradas_con(s, g);
    let a = mapa_de(t);
    let b = con_valores(mapa_de(s), g);
    assert forall|k: Seq<char>| a.contains_key(k) <==> b.contains_key(k) by {
        if a.contains_key(k) {
            let i = indice_de(t, k);
            assert(s[i].0 == k);
        }
        if b.contains_key(k) {
            let i = indice_de(s, k);
            assert(t[i].0 == k);
        }
    }
    assert forall|k: Seq<char>| a.contains_key(k) implies a[k] == b[k] by {
        let i = indice_de(t, k);
        lema_mapa_de(t, i);
        assert(s[i].0 == k);
        lema_mapa_de(s, i);
    }
    assert(a =~= b);
}

/// Stored entries, with every key read as its characters.
spec fn entradas_de<V>(e: Seq<(String, V)>) -> Seq<(Seq<char>, V)> {
    Seq::new(e.len(), |i: int| (e[i].0@, e[i].1))
}

/// A dictionary keyed by text. It keeps its entries in the order in which
/// their keys first came, and no key twice.
///
/// It is a list of pairs and no hash map: vstd gives a hash map a view
/// only where it knows how the keys hash and compare, which it does for
/// integers and not for `String`, so that of a map keyed by text not even
/// its size after one insertion can be proved.
#[derive(Debug)]
pub struct Diccionario<V> {
    entradas: Vec<(String, V)>,
}

impl<V> View for Diccionario<V> {
    type V = Map<Seq<char>, V>;

    closed spec fn view(&self) -> Map<Seq<char>, V> {
        mapa_de(self.entradas())
    }
}

impl<V> Default for Diccionario<V> {
    fn default() -> (r: Diccionario<V>)
        ensures
            r.entradas() == Seq::<(Seq<char>, V)>::empty(),
            r@ == Map::<Seq<char>, V>::empty(),
    {
        Diccionario::new()
    }
}

impl<V> Diccionario<V> {
    #[verifier::type_invariant]
    closed spec fn invariante(self) -> bool {
        claves_distintas(self.entradas())
    }

    /// The entries, keys by their characters, in the order they are kept.
    pub closed spec fn entradas(&self) -> Seq<(Seq<char>, V)> {
        entradas_de(self.entradas@)
    }

    /// A dictionary without entries.
    pub fn new() -> (r: Diccionario<V>)
        ensures
            r.entradas() == Seq::<(Seq<char>, V)>::empty(),
            r@ == Map::<Seq<char>, V>::empty(),
    {
        let r = Diccionario { entradas: Vec::new() };
        assert(r.entradas() =~= Seq::<(Seq<char>, V)>::empty());
        assert(r@ =~= Map::<Seq<char>, V>::empty());
        r
    }

    /// Number of entries. The keys of the entries are distinct, and the map
    /// is what the entries say.
    pub fn len(&self) -> (n: usize)
        ensures
            n == self.entradas().len(),
            claves_distintas(self.entradas()),
            self@ == mapa_de(self.entradas()),
    {
        proof {
            use_type_invariant(self);
        }
        self.entradas.len()
    }

    /// Whether the dictionary has no entry.
    pub fn is_empty(&self) -> (r: bool)
        ensures
            r == (self.entradas().len() == 0),
            r == (self@ == Map::<Seq<char>, V>::empty()),
    {
        proof {
            if self.entradas().len() > 0 {
                assert(tiene_clave(self.entradas(), self.entradas()[0].0));
                assert(self@.contains_key(self.entradas()[0].0));
            } else {
                assert(self@ =~= Map::<Seq<char>, V>::empty());
            }
        }
        self.entradas.len() == 0
    }

    /// The key of the `i`-th entry.
    pub fn clave_en(&self, i: usize) -> (r: &String)
        requires
            i < self.entradas().len(),
        ensures
            r@ == self.entradas()[i as int].0,
    {
        &self.entradas[i].0
    }

    /// The value of the `i`-th entry.
    pub fn valor_en(&self, i: usize) -> (r: &V)
        requires
            i < self.entradas().len(),
        ensures
            *r == self.entradas()[i as int].1,
    {
        &self.entradas[i].1
    }

    /// The place of a key among the entries.
    fn buscar(&self, k: &str) -> (r: Option<usize>)
        ensures
            claves_distintas(self.entradas()),
            match r {
                Some(i) => i < self.entradas().len() && self.entradas()[i as int].0 == k@
                    && self@.contains_key(k@) && self@[k@] == self.entradas()[i as int].1,
                None => !tiene_clave(self.entradas(), k@) && !self@.contains_key(k@),
            },
    {
        proof {
            use_type_invariant(self);
        }
        let mut i: usize = 0;
        while i < self.entradas.len()
            invariant
                i <= self.entradas.len(),
                claves_distintas(self.entradas()),
                forall|j: int| 0 <= j < i ==> (#[trigger] self.entradas()[j]).0 != k@,
            decreases self.entradas.len() - i,
        {
            if iguales(self.entradas[i].0.as_str(), k) {
                proof {
                    lema_mapa_de(self.entradas(), i as int);
                }
                return Some(i);
            }
            i = i + 1;
        }
        None
    }

    /// Whether a key is there.
    pub fn contains_key(&self, k: &str) -> (r: bool)
        ensures
            r == self@.contains_key(k@),
    {
        self.buscar(k).is_some()
    }

    /// The value under a key, if the key is there.
    pub fn get(&self, k: &str) -> (r: Option<&V>)
        ensures
            match r {
                Some(v) => self@.contains_key(k@) && *v == self@[k@],
                None => !self@.contains_key(k@),
            },
    {
        match self.buscar(k) {
            Some(i) => Some(&self.entradas[i].1),
            None => None,
        }
    }

    /// Puts a value under a key and returns the value that was there. A
    /// new key goes behind the others; a known key keeps its place.
    pub fn insert(&mut self, k: String, v: V) -> (r: Option<V>)
        ensures
            final(self)@ == old(self)@.insert(k@, v),
            r == old(self)@.get(k@),
            !old(self)@.contains_key(k@) ==> final(self).entradas() == old(self).entradas().push(
                (k@, v),
            ),
            old(self)@.contains_key(k@) ==> final(self).entradas().len() == old(
                self,
            ).entradas().len(),
    {
        let lugar = self.buscar(k.as_str());
        let mut viejo: Diccionario<V> = Diccionario::new();
        std::mem::swap(self, &mut viejo);
        let ghost antes = viejo.entradas();
        proof {
            use_type_invariant(&viejo);
        }
        let Diccionario { entradas: mut e } = viejo;
        let r = match lugar {
            Some(i) => {
                let mut par = (k, v);
                std::mem::swap(&mut e[i], &mut par);
                Some(par.1)
            },
            None => {
                e.push((k, v));
                None
            },
        };
        proof {
            let s = entradas_de(e@);
            match lugar {
                Some(i) => {
                    assert(s =~= antes.update(i as int, (k@, v)));
                    lema_mapa_de(antes, i as int);
                },
                None => {
                    assert(s =~= antes.push((k@, v)));
                },
            }
            assert(claves_distintas(s));
            lema_mapa_tras_insertar(antes, s, k@, v);
        }
        *self = Diccionario { entradas: e };
        r
    }

    /// Takes a key out and returns the value that was under it.
    pub fn remove(&mut self, k: &str) -> (r: Option<V>)
        ensures
            final(self)@ == old(self)@.remove(k@),
            r == old(self)@.get(k@),
    {
        let lugar = self.buscar(k);
        match lugar {
            Some(i) => {
                let mut viejo: Diccionario<V> = Diccionario::new();
                std::mem::swap(self, &mut viejo);
                let ghost antes = viejo.entradas();
                proof {
                    use_type_invariant(&viejo);
                }
                let Diccionario { entradas: mut e } = viejo;
                let par = e.remove(i);
                proof {
                    let s = entradas_de(e@);
                    assert(s =~= antes.remove(i as int));
                    assert(claves_distintas(s));
                    lema_mapa_tras_quitar(antes, i as int);
                }
                *self = Diccionario { entradas: e };
                Some(par.1)
            },
            None => {
                assert(self@.remove(k@) =~= self@);
                None
            },
        }
    }
}

/// The map of the entries after a value was put under `k`: in place where
/// the key was there, behind the others where it was not.
proof fn lema_mapa_tras_insertar<V>(
    antes: Seq<(Seq<char>, V)>,
    s: Seq<(Seq<char>, V)>,
    k: Seq<char>,
    v: V,
)
    requires
        claves_distintas(antes),
        claves_distintas(s),
        tiene_clave(antes, k) ==> s == antes.update(indice_de(antes, k), (k, v)),
        !tiene_clave(antes, k) ==> s == antes.push((k, v)),
    ensures
        mapa_de(s) == mapa_de(antes).insert(k, v),
{
    let m = mapa_de(antes).insert(k, v);
    assert forall|c: Seq<char>| mapa_de(s).contains_key(c) <==> m.contains_key(c) by {
        if mapa_de(s).contains_key(c) {
            let i = indice_de(s, c);
            if c != k {
                assert(antes[i].0 == c);
            }
        }
        if m.contains_key(c) && c != k {
            let i = indice_de(antes, c);
            assert(s[i].0 == c);
        }
        if c == k {
            if tiene_clave(antes, k) {
                assert(s[indice_de(antes, k)].0 == k);
            } else {
                assert(s[s.len() - 1].0 == k);
            }
        }
    }
    assert forall|c: Seq<char>| mapa_de(s).contains_key(c) implies mapa_de(s)[c] == m[c] by {
        let i = indice_de(s, c);
        lema_mapa_de(s, i);
        if c != k {
            assert(antes[i].0 == c);
            lema_mapa_de(antes, i);
        } else {
            if tiene_clave(antes, k) {
                let j = indice_de(antes, k);
                assert(s[j].0 == k);
                lema_mapa_de(s, j);
            } else {
                lema_mapa_de(s, s.len() - 1);
            }
        }
    }
    assert(mapa_de(s) =~= m);
}

/// The map of the entries after the entry at `i` was taken out.
proof fn lema_mapa_tras_quitar<V>(antes: Seq<(Seq<char>, V)>, i: int)
    requires
        claves_distintas(antes),
        0 <= i < antes.len(),
    ensures
        mapa_de(antes.remove(i)) == mapa_de(antes).remove(antes[i].0),
{
    let s = antes.remove(i);
    let k = antes[i].0;
    let m = mapa_de(antes).remove(k);
    assert forall|c: Seq<char>| mapa_de(s).contains_key(c) <==> m.contains_key(c) by {
        if mapa_de(s).contains_key(c) {
            let j = indice_de(s, c);
            let j0 = if j < i {
                j
            } else {
                j + 1
            };
            assert(antes[j0].0 == c);
        }
        if m.contains_key(c) {
            let j0 = indice_de(antes, c);
            let j = if j0 < i {
                j0
            } else {
                j0 - 1
            };
            assert(s[j].0 == c);
        }
    }
    assert forall|c: Seq<char>| mapa_de(s).contains_key(c) implies mapa_de(s)[c] == m[c] by {
        let j = indice_de(s, c);
        lema_mapa_de(s, j);
        let j0 = if j < i {
            j
        } else {
            j + 1
        };
        assert(antes[j0].0 == c);
        lema_mapa_de(antes, j0);
    }
    assert(mapa_de(s) =~= m);
}

} // verus!
