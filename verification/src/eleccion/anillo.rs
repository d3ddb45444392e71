use crate::direccion::Direccion;
use crate::utils::constantes::{MAX_PEER_PORT, MIN_PEER_PORT};
use vstd::prelude::*;

verus! {

/// The ring of replicas: one replica on every port from `min` to `max`,
/// ordered by port, the highest followed by the lowest.
#[derive(Clone, Copy, Debug, PartialEq, Eq, Structural)]
pub struct Anillo {
    min: u16,
    max: u16,
}

impl Anillo {
    #[verifier::type_invariant]
    spec fn invariante(self) -> bool {
        self.min <= self.max
    }

    /// The lowest port of the ring.
    pub closed spec fn min(self) -> u16 {
        self.min
    }

    /// The highest port of the ring.
    pub closed spec fn max(self) -> u16 {
        self.max
    }

    /// Number of replicas in the ring.
    pub open spec fn tamano(self) -> int {
        self.max() - self.min() + 1
    }

    /// Whether a replica of the ring listens on `p`.
    pub open spec fn contiene(self, p: u16) -> bool {
        self.min() <= p <= self.max()
    }

    /// The port that follows `p` in ring order. A port outside the ring is
    /// followed by the lowest port of the ring.
    pub open spec fn siguiente_spec(self, p: u16) -> u16 {
        if p < self.min() || p >= self.max() {
            self.min()
        } else {
            (p + 1) as u16
        }
    }

    /// The port reached from `p` in `k` hops.
    pub open spec fn sucesor(self, p: u16, k: nat) -> u16
        decreases k,
    {
        if k == 0 {
            p
        } else {
            self.siguiente_spec(self.sucesor(p, (k - 1) as nat))
        }
    }

    /// The ring on the given ports; `None` where `min` is above `max`.
    pub fn new(min: u16, max: u16) -> (r: Option<Anillo>)
        ensures
            min <= max ==> (r matches Some(a) && a.min() == min && a.max() == max),
            min > max ==> r is None,
    {
        if min <= max {
            Some(Anillo { min, max })
        } else {
            None
        }
    }

    /// The ring on the well-known ports.
    pub fn por_defecto() -> (a: Anillo)
        ensures
            a.min() == MIN_PEER_PORT,
            a.max() == MAX_PEER_PORT,
    {
        Anillo { min: MIN_PEER_PORT, max: MAX_PEER_PORT }
    }

    /// Counts the replicas of the ring.
    pub fn tamano_exec(&self) -> (n: usize)
        ensures
            n == self.tamano(),
            n >= 1,
    {
        proof {
            use_type_invariant(self);
        }
        (self.max - self.min) as usize + 1
    }

    /// Computes the port that follows `p`.
    #[verifier::when_used_as_spec(siguiente_spec)]
    pub fn siguiente(self, p: u16) -> (q: u16)
        ensures
            q == self.siguiente_spec(p),
            self.contiene(q),
    {
        proof {
            use_type_invariant(self);
        }
        if p < self.min || p >= self.max {
            self.min
        } else {
            p + 1
        }
    }

    /// The replicas that a message sent from `id` is offered to, in ring
    /// order: every replica of the ring but the sender itself.
    pub open spec fn destinos_spec(self, id: Direccion) -> Seq<Direccion> {
        Seq::new(
            (if self.contiene(id.puerto) {
                self.tamano() - 1
            } else {
                self.tamano()
            }) as nat,
            |i: int| Direccion { ip: id.ip, puerto: self.sucesor(id.puerto, (i + 1) as nat) },
        )
    }

    /// Lists the replicas that a message from `id` is offered to.
    pub fn destinos(&self, id: Direccion) -> (r: Vec<Direccion>)
        ensures
            r@ == self.destinos_spec(id),
    {
        proof {
            use_type_invariant(self);
        }
        let n = self.tamano_exec();
        let mut v: Vec<Direccion> = Vec::new();
        let mut p = self.siguiente(id.puerto);
        assert(self.sucesor(id.puerto, 1) == self.siguiente_spec(self.sucesor(id.puerto, 0)));
        while p != id.puerto && v.len() < n
            invariant
                self.invariante(),
                n == self.tamano(),
                v.len() <= n,
                p == self.sucesor(id.puerto, (v.len() + 1) as nat),
                forall|i: int|
                    0 <= i < v.len() ==> v[i] == (Direccion {
                        ip: id.ip,
                        puerto: self.sucesor(id.puerto, (i + 1) as nat),
                    }),
                forall|i: int| 0 <= i < v.len() ==> (#[trigger] v[i]).puerto != id.puerto,
            decreases n - v.len(),
        {
            v.push(Direccion { ip: id.ip, puerto: p });
            p = self.siguiente(p);
            assert(self.sucesor(id.puerto, (v.len() + 1) as nat) == self.siguiente_spec(
                self.sucesor(id.puerto, v.len() as nat),
            ));
        }
        proof {
            if self.contiene(id.puerto) {
                self.lema_vuelta(id.puerto);
                if v.len() < n - 1 {
                    self.lema_forma_cerrada(id.puerto, (v.len() + 1) as nat);
                }
                if v.len() == n {
                    assert(v[n - 1].puerto == self.sucesor(id.puerto, n as nat));
                }
            } else {
                if v.len() < n {
                    self.lema_fuera(id.puerto, (v.len() + 1) as nat);
                }
            }
            assert(v@ =~= self.destinos_spec(id));
        }
        v
    }

    /// Inside the ring, `k` hops from `p` lead to `p + k`, taken round the
    /// ring once where it passes the highest port.
    pub proof fn lema_forma_cerrada(self, p: u16, k: nat)
        requires
            self.min() <= self.max(),
            self.contiene(p),
            k <= self.tamano(),
        ensures
            self.sucesor(p, k) == if p + k <= self.max() {
                p + k
            } else {
                p + k - self.tamano()
            },
            self.contiene(self.sucesor(p, k)),
        decreases k,
    {
        if k > 0 {
            self.lema_forma_cerrada(p, (k - 1) as nat);
        }
    }

    /// A message that no replica drops is back at its sender after exactly
    /// as many hops as the ring has replicas, and at no hop before.
    pub proof fn lema_vuelta(self, p: u16)
        requires
            self.min() <= self.max(),
            self.contiene(p),
        ensures
            self.sucesor(p, self.tamano() as nat) == p,
            forall|k: nat| 0 < k < self.tamano() ==> self.sucesor(p, k) != p,
    {
        self.lema_forma_cerrada(p, self.tamano() as nat);
        assert forall|k: nat| 0 < k < self.tamano() implies self.sucesor(p, k) != p by {
            self.lema_forma_cerrada(p, k);
        }
    }

    /// On its way round, the message visits every replica of the ring, each
    /// at one hop only.
    pub proof fn lema_visita_todos(self, p: u16, q: u16)
        requires
            self.min() <= self.max(),
            self.contiene(p),
            self.contiene(q),
        ensures
            exists|k: nat| k < self.tamano() && self.sucesor(p, k) == q,
            forall|k: nat, l: nat|
                k < self.tamano() && l < self.tamano() && self.sucesor(p, k) == self.sucesor(p, l)
                    ==> k == l,
    {
        let k: nat = if q >= p {
            (q - p) as nat
        } else {
            (q - p + self.tamano()) as nat
        };
        self.lema_forma_cerrada(p, k);
        assert(k < self.tamano() && self.sucesor(p, k) == q);
        assert forall|k: nat, l: nat|
            k < self.tamano() && l < self.tamano() && self.sucesor(p, k) == self.sucesor(
                p,
                l,
            ) implies k == l by {
            self.lema_forma_cerrada(p, k);
            self.lema_forma_cerrada(p, l);
        }
    }

    /// From a port outside the ring, every hop lands inside it, on the
    /// `k`-th port of the ring.
    pub proof fn lema_fuera(self, p: u16, k: nat)
        requires
            self.min() <= self.max(),
            !self.contiene(p),
            0 < k <= self.tamano(),
        ensures
            self.sucesor(p, k) == self.min() + k - 1,
            self.sucesor(p, k) != p,
        decreases k,
    {
        if k > 1 {
            self.lema_fuera(p, (k - 1) as nat);
        } else {
            assert(self.sucesor(p, 0) == p);
        }
    }
}

} // verus!
