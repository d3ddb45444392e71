use vstd::prelude::*;

verus! {

/// Whether `a` comes before `b` in the order of texts: character by
/// character by code point, a text before every text that it begins.
pub open spec fn menor_lex(a: Seq<char>, b: Seq<char>) -> bool
    decreases a.len(),
{
    if b.len() == 0 {
        false
    } else if a.len() == 0 {
        true
    } else if a[0] != b[0] {
        (a[0] as u32) < (b[0] as u32)
    } else {
        menor_lex(a.drop_first(), b.drop_first())
    }
}

/// `<` on `str`: std orders strings lexicographically by their bytes, which
/// is the order of their code points.
#[verifier::external_body]
pub(crate) fn cadena_menor(a: &str, b: &str) -> (r: bool)
    ensures
        r == menor_lex(a@, b@),
{
    a < b
}

/// Of two different texts one comes before the other, and never both.
pub proof fn lema_menor_total(a: Seq<char>, b: Seq<char>)
    ensures
        a != b ==> menor_lex(a, b) || menor_lex(b, a),
        !(menor_lex(a, b) && menor_lex(b, a)),
    decreases a.len(),
{
    if a.len() > 0 && b.len() > 0 {
        if a[0] == b[0] {
            lema_menor_total(a.drop_first(), b.drop_first());
            if a.drop_first() == b.drop_first() {
                assert(a =~= seq![a[0]] + a.drop_first());
                assert(b =~= seq![b[0]] + b.drop_first());
            }
        } else {
            let x = a[0];
            let y = b[0];
            assert(x as u32 != y as u32) by {
                vstd::utf8::char_u32_cast(x, x as u32);
                vstd::utf8::char_u32_cast(y, y as u32);
            }
        }
    } else if a.len() == 0 && b.len() == 0 {
        assert(a =~= b);
    }
}

/// The order of texts is transitive.
pub proof fn lema_menor_transitiva(a: Seq<char>, b: Seq<char>, c: Seq<char>)
    requires
        menor_lex(a, b),
        menor_lex(b, c),
    ensures
        menor_lex(a, c),
    decreases a.len(),
{
    if a.len() > 0 && b.len() > 0 && c.len() > 0 {
        if a[0] == b[0] && b[0] == c[0] {
            lema_menor_transitiva(a.drop_first(), b.drop_first(), c.drop_first());
        }
    }
}

/// One of the items from which the best are picked: its count, and its
/// name where ties are settled by name.
pub struct Candidato {
    pub cantidad: u32,
    pub nombre: String,
}

/// Whether the item at `i` comes before the item at `j`: the higher count
/// first; among equal counts the lesser name where `por_nombre` holds, the
/// earlier item where it does not.
pub open spec fn precede(c: Seq<(u32, Seq<char>)>, por_nombre: bool, i: int, j: int) -> bool {
    c[i].0 > c[j].0 || (c[i].0 == c[j].0 && if por_nombre {
        menor_lex(c[i].1, c[j].1)
    } else {
        i < j
    })
}

/// Whether an item of count `c1` and name `n1` comes before one of count
/// `c2` and name `n2`: the higher count first, among equal counts the
/// lesser name.
pub open spec fn antes(c1: u32, n1: Seq<char>, c2: u32, n2: Seq<char>) -> bool {
    c1 > c2 || (c1 == c2 && menor_lex(n1, n2))
}

/// The items as counts and names.
pub open spec fn pares_de(c: Seq<Candidato>) -> Seq<(u32, Seq<char>)> {
    Seq::new(c.len(), |i: int| (c[i].cantidad, c[i].nombre@))
}

/// Where ties are settled by name, no two items have the same name.
pub open spec fn nombres_distintos(c: Seq<(u32, Seq<char>)>, por_nombre: bool) -> bool {
    por_nombre ==> forall|i: int, j: int|
        0 <= i < j < c.len() ==> (#[trigger] c[i]).1 != (#[trigger] c[j]).1
}

/// `r` holds the places of the best `k` items, the best first: each comes
/// before the next, and all of them before every item that was not picked.
pub open spec fn es_seleccion(
    c: Seq<(u32, Seq<char>)>,
    por_nombre: bool,
    k: nat,
    r: Seq<usize>,
) -> bool {
    &&& r.len() == if k <= c.len() {
        k
    } else {
        c.len()
    }
    &&& forall|a: int| 0 <= a < r.len() ==> (#[trigger] r[a]) < c.len()
    &&& forall|a: int, b: int|
        0 <= a < b < r.len() ==> precede(c, por_nombre, r[a] as int, r[b] as int)
    &&& forall|a: int, j: int|
        0 <= a < r.len() && 0 <= j < c.len() && !r.contains(j as usize) ==> precede(
            c,
            por_nombre,
            r[a] as int,
            j,
        )
}

proof fn lema_precede_total(c: Seq<(u32, Seq<char>)>, por_nombre: bool, i: int, j: int)
    requires
        nombres_distintos(c, por_nombre),
        0 <= i < c.len(),
        0 <= j < c.len(),
        i != j,
    ensures
        precede(c, por_nombre, i, j) || precede(c, por_nombre, j, i),
{
    if por_nombre {
        if i < j {
            assert(c[i].1 != c[j].1);
        } else {
            assert(c[j].1 != c[i].1);
        }
        lema_menor_total(c[i].1, c[j].1);
    }
}

proof fn lema_precede_transitiva(c: Seq<(u32, Seq<char>)>, por_nombre: bool, i: int, j: int, l: int)
    requires
        precede(c, por_nombre, i, j),
        precede(c, por_nombre, j, l),
    ensures
        precede(c, por_nombre, i, l),
{
    if por_nombre && c[i].0 == c[j].0 && c[j].0 == c[l].0 {
        lema_menor_transitiva(c[i].1, c[j].1, c[l].1);
    }
}

fn precede_exec(c: &Vec<Candidato>, por_nombre: bool, i: usize, j: usize) -> (r: bool)
    requires
        i < c.len(),
        j < c.len(),
    ensures
        r == precede(pares_de(c@), por_nombre, i as int, j as int),
{
    if c[i].cantidad != c[j].cantidad {
        c[i].cantidad > c[j].cantidad
    } else if por_nombre {
        cadena_menor(c[i].nombre.as_str(), c[j].nombre.as_str())
    } else {
        i < j
    }
}

/// How many of the first `n` marks are set.
spec fn marcados(t: Seq<bool>, n: nat) -> nat
    decreases n,
{
    if n == 0 {
        0
    } else {
        marcados(t, (n - 1) as nat) + if t[n - 1] {
            1nat
        } else {
            0nat
        }
    }
}

proof fn lema_marcados_libre(t: Seq<bool>, n: nat)
    requires
        n <= t.len(),
        marcados(t, n) < n,
    ensures
        exists|j: int| 0 <= j < n && !t[j],
    decreases n,
{
    if n > 0 {
        if t[n - 1] {
            lema_marcados_cota(t, (n - 1) as nat);
            lema_marcados_libre(t, (n - 1) as nat);
        }
    }
}

proof fn lema_marcados_cota(t: Seq<bool>, n: nat)
    requires
        n <= t.len(),
    ensures
        marcados(t, n) <= n,
    decreases n,
{
    if n > 0 {
        lema_marcados_cota(t, (n - 1) as nat);
    }
}

proof fn lema_marcados_tras(t: Seq<bool>, m: int, n: nat)
    requires
        0 <= m < t.len(),
        n <= t.len(),
        !t[m],
    ensures
        marcados(t.update(m, true), n) == marcados(t, n) + if m < n {
            1nat
        } else {
            0nat
        },
    decreases n,
{
    if n > 0 {
        lema_marcados_tras(t, m, (n - 1) as nat);
    }
}

/// Picks the best `k` of the items, the best first.
pub(crate) fn mejores(c: &Vec<Candidato>, por_nombre: bool, k: usize) -> (r: Vec<usize>)
    requires
        nombres_distintos(pares_de(c@), por_nombre),
    ensures
        es_seleccion(pares_de(c@), por_nombre, k as nat, r@),
{
    let ghost p = pares_de(c@);
    let n = c.len();
    let tope = if k <= n {
        k
    } else {
        n
    };
    let mut r: Vec<usize> = Vec::new();
    let mut tomado: Vec<bool> = Vec::new();
    let mut z: usize = 0;
    while z < n
        invariant
            z <= n,
            tomado.len() == z,
            forall|j: int| 0 <= j < z ==> !tomado[j],
            marcados(tomado@, z as nat) == 0,
        decreases n - z,
    {
        let ghost antes = tomado@;
        tomado.push(false);
        proof {
            lema_marcados_igual(antes, tomado@, z as nat);
        }
        z = z + 1;
    }
    while r.len() < tope
        invariant
            n == c.len(),
            tope <= n,
            r.len() <= tope,
            tomado.len() == n,
            p == pares_de(c@),
            nombres_distintos(p, por_nombre),
            marcados(tomado@, n as nat) == r.len(),
            forall|a: int| 0 <= a < r.len() ==> (#[trigger] r[a]) < n && tomado[r[a] as int],
            forall|j: int| 0 <= j < n && tomado[j] ==> r@.contains(j as usize),
            forall|a: int, b: int|
                0 <= a < b < r.len() ==> precede(p, por_nombre, r[a] as int, r[b] as int),
            forall|a: int, j: int|
                0 <= a < r.len() && 0 <= j < n && !tomado[j] ==> precede(
                    p,
                    por_nombre,
                    r[a] as int,
                    j,
                ),
        decreases tope - r.len(),
    {
        let mut mejor: Option<usize> = None;
        let mut j: usize = 0;
        while j < n
            invariant
                j <= n,
                n == c.len(),
                tomado.len() == n,
                p == pares_de(c@),
            nombres_distintos(p, por_nombre),
                match mejor {
                    Some(m) => {
                        &&& m < j
                        &&& !tomado[m as int]
                        &&& forall|l: int|
                            0 <= l < j && !tomado[l] && l != m ==> precede(
                                p,
                                por_nombre,
                                m as int,
                                l,
                            )
                    },
                    None => forall|l: int| 0 <= l < j ==> tomado[l],
                },
            decreases n - j,
        {
            if !tomado[j] {
                match mejor {
                    None => {
                        mejor = Some(j);
                    },
                    Some(m) => {
                        if precede_exec(c, por_nombre, j, m) {
                            proof {
                                assert forall|l: int|
                                    0 <= l < j + 1 && !tomado[l] && l != j implies precede(
                                    p,
                                    por_nombre,
                                    j as int,
                                    l,
                                ) by {
                                    if l != m {
                                        lema_precede_transitiva(
                                            p,
                                            por_nombre,
                                            j as int,
                                            m as int,
                                            l,
                                        );
                                    }
                                }
                            }
                            mejor = Some(j);
                        } else {
                            proof {
                                lema_precede_total(p, por_nombre, j as int, m as int);
                            }
                        }
                    },
                }
            }
            j = j + 1;
        }
        proof {
            lema_marcados_libre(tomado@, n as nat);
        }
        let m = match mejor {
            Some(m) => m,
            None => {
                return r;
            },
        };
        let ghost antes = tomado@;
        let ghost r0 = r@;
        tomado.set(m, true);
        r.push(m);
        proof {
            lema_marcados_tras(antes, m as int, n as nat);
            assert forall|l: int| 0 <= l < n && tomado[l] implies r@.contains(l as usize) by {
                if l == m {
                    assert(r@[r.len() - 1] == m);
                } else {
                    let a = choose|a: int| 0 <= a < r0.len() && r0[a] == l as usize;
                    assert(r@[a] == l as usize);
                }
            }
        }
    }
    proof {
        assert forall|a: int, j: int|
            0 <= a < r.len() && 0 <= j < n && !r@.contains(j as usize) implies precede(
            p,
            por_nombre,
            r[a] as int,
            j,
        ) by {}
    }
    r
}

proof fn lema_marcados_igual(s: Seq<bool>, t: Seq<bool>, n: nat)
    requires
        n <= s.len(),
        n <= t.len(),
        forall|i: int| 0 <= i < n ==> s[i] == t[i],
    ensures
        marcados(s, n) == marcados(t, n),
    decreases n,
{
    if n > 0 {
        lema_marcados_igual(s, t, (n - 1) as nat);
    }
}

} // verus!
