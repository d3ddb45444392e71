use crate::direccion::Direccion;
use crate::utils::constantes::MAX_REINTENTOS;
use vstd::prelude::*;

verus! {

/// How one attempt on the destination of a walk went.
#[derive(Debug, PartialEq, Eq)]
pub enum Intento {
    /// No connection could be made.
    SinConexion,
    /// The connection was made, but the line could not be written.
    SinEscritura,
    /// The line was written, and no line came back in time.
    SinRespuesta,
    /// This line came back in time.
    Respuesta(String),
}

/// A walk over a list of destinations in which every destination gets up to
/// `MAX_REINTENTOS` attempts. The caller makes the attempts; the walk says
/// whom to try next and when to give up.
#[derive(Debug)]
pub struct Recorrido {
    destinos: Vec<Direccion>,
    indice: usize,
    intentos: u8,
}

impl Recorrido {
    #[verifier::type_invariant]
    spec fn invariante(self) -> bool {
        &&& self.indice <= self.destinos.len()
        &&& self.intentos < MAX_REINTENTOS
        &&& self.indice == self.destinos.len() ==> self.intentos == 0
    }

    /// The destinations of the walk, in the order in which they are tried.
    pub closed spec fn destinos(&self) -> Seq<Direccion> {
        self.destinos@
    }

    /// How many destinations are behind the walk.
    pub closed spec fn indice(&self) -> nat {
        self.indice as nat
    }

    /// How many attempts have failed on the current destination.
    pub closed spec fn intentos(&self) -> nat {
        self.intentos as nat
    }

    /// Attempts that the walk may still ask for. Every failure lowers it, so
    /// a walk over `n` destinations asks for `MAX_REINTENTOS * n` at most.
    pub open spec fn restantes(&self) -> int {
        (self.destinos().len() - self.indice()) * MAX_REINTENTOS - self.intentos()
    }

    /// The destination to try now; `None` once every destination is spent.
    pub open spec fn objetivo_spec(&self) -> Option<Direccion> {
        if self.indice() < self.destinos().len() {
            Some(self.destinos()[self.indice() as int])
        } else {
            None
        }
    }

    /// A walk over `destinos` that has not begun.
    pub fn new(destinos: Vec<Direccion>) -> (r: Recorrido)
        ensures
            r.destinos() == destinos@,
            r.indice() == 0,
            r.intentos() == 0,
            r.restantes() == MAX_REINTENTOS * destinos.len(),
    {
        assert(destinos.len() * MAX_REINTENTOS == MAX_REINTENTOS * destinos.len()) by (nonlinear_arith);
        Recorrido { destinos, indice: 0, intentos: 0 }
    }

    /// The destination to try now, if any is left.
    #[verifier::when_used_as_spec(objetivo_spec)]
    pub fn objetivo(&self) -> (r: Option<Direccion>)
        ensures
            r == self.objetivo_spec(),
            self.indice() <= self.destinos().len(),
            self.intentos() < MAX_REINTENTOS,
            r is Some ==> self.restantes() > 0,
            r is None ==> self.restantes() == 0 && self.intentos() == 0,
    {
        proof {
            use_type_invariant(self);
            self.lema_restantes();
        }
        if self.indice < self.destinos.len() {
            Some(self.destinos[self.indice])
        } else {
            None
        }
    }

    proof fn lema_restantes(self)
        requires
            self.invariante(),
        ensures
            self.indice() < self.destinos().len() ==> self.restantes() > 0,
            self.indice() == self.destinos().len() ==> self.restantes() == -self.intentos(),
    {
        let k = self.destinos().len() - self.indice();
        assert(k >= 1 ==> k * MAX_REINTENTOS >= MAX_REINTENTOS) by (nonlinear_arith)
            requires
                k >= 0,
        ;
        assert(k == 0 ==> k * MAX_REINTENTOS == 0) by (nonlinear_arith);
    }

    /// `despues` is this walk after one more failed attempt on its current
    /// destination: the same destination with one attempt less to go, or
    /// the next destination once the last attempt has failed. A spent walk
    /// stays as it is.
    pub open spec fn tras_fallo(&self, despues: &Recorrido) -> bool {
        &&& despues.destinos() == self.destinos()
        &&& if self.objetivo_spec() is None {
            despues.indice() == self.indice() && despues.intentos() == self.intentos()
        } else if self.intentos() + 1 < MAX_REINTENTOS {
            despues.indice() == self.indice() && despues.intentos() == self.intentos() + 1
        } else {
            despues.indice() == self.indice() + 1 && despues.intentos() == 0
        }
    }

    /// `despues` is this walk after its current destination was left
    /// behind. A spent walk stays as it is.
    pub open spec fn tras_pasar(&self, despues: &Recorrido) -> bool {
        &&& despues.destinos() == self.destinos()
        &&& if self.objetivo_spec() is None {
            despues.indice() == self.indice() && despues.intentos() == self.intentos()
        } else {
            despues.indice() == self.indice() + 1 && despues.intentos() == 0
        }
    }

    /// Records that the attempt on the current destination failed.
    pub fn registrar_fallo(&mut self)
        ensures
            old(self).tras_fallo(final(self)),
            old(self).objetivo_spec() is Some ==> final(self).restantes() == old(self).restantes()
                - 1,
    {
        proof {
            use_type_invariant(&*self);
        }
        if self.indice < self.destinos.len() {
            let ghost k = self.destinos@.len() - self.indice;
            assert((k - 1) * MAX_REINTENTOS == k * MAX_REINTENTOS - MAX_REINTENTOS) by (nonlinear_arith);
            if self.intentos + 1 < MAX_REINTENTOS {
                self.intentos = self.intentos + 1;
            } else {
                self.intentos = 0;
                self.indice = self.indice + 1;
            }
        }
    }

    /// Leaves the current destination behind, whatever attempts it had left.
    pub fn pasar_al_siguiente(&mut self)
        ensures
            old(self).tras_pasar(final(self)),
            old(self).objetivo_spec() is Some ==> final(self).restantes() < old(self).restantes(),
    {
        proof {
            use_type_invariant(&*self);
        }
        if self.indice < self.destinos.len() {
            let ghost k = self.destinos@.len() - self.indice;
            assert((k - 1) * MAX_REINTENTOS == k * MAX_REINTENTOS - MAX_REINTENTOS) by (nonlinear_arith);
            self.intentos = 0;
            self.indice = self.indice + 1;
        }
    }
}

} // verus!
