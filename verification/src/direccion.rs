use vstd::prelude::*;

verus! {

/// Network address of a replica or of a client session: an IPv4 host and a
/// port. Entities are keyed by it for as long as the session lives.
#[derive(Clone, Copy, Debug, PartialEq, Eq, Structural, Hash)]
pub struct Direccion {
    pub ip: u32,
    pub puerto: u16,
}

/// The largest integer that is the key of some address, plus one.
pub const LIMITE_CLAVE: u64 = 0x1_0000_0000_0000;

impl Direccion {
    /// The integer under which the maps key this address: the host in the
    /// high bits, the port in the low sixteen.
    pub open spec fn clave_spec(self) -> u64 {
        (self.ip * 65536 + self.puerto) as u64
    }

    /// Computes the key of the address.
    #[verifier::when_used_as_spec(clave_spec)]
    pub fn clave(self) -> (k: u64)
        ensures
            k == self.clave_spec(),
            k < LIMITE_CLAVE,
    {
        let alto: u64 = self.ip as u64;
        let bajo: u64 = self.puerto as u64;
        alto * 65536 + bajo
    }

    /// The address that a key stands for.
    pub open spec fn de_clave_spec(k: u64) -> Direccion {
        Direccion { ip: (k / 65536) as u32, puerto: (k % 65536) as u16 }
    }

    /// Computes the address of a key.
    #[verifier::when_used_as_spec(de_clave_spec)]
    pub fn de_clave(k: u64) -> (d: Direccion)
        requires
            k < LIMITE_CLAVE,
        ensures
            d == Self::de_clave_spec(k),
            d.clave_spec() == k,
    {
        let alto: u64 = k / 65536;
        let bajo: u64 = k % 65536;
        Direccion { ip: alto as u32, puerto: bajo as u16 }
    }

    /// The all-zero address, which stands for "nobody" on the wire.
    pub fn nula() -> (d: Direccion)
        ensures
            d == (Direccion { ip: 0, puerto: 0 }),
    {
        Direccion { ip: 0, puerto: 0 }
    }
}

/// Keys and addresses correspond one to one.
pub proof fn lema_clave_inyectiva(a: Direccion, b: Direccion)
    ensures
        a.clave_spec() == b.clave_spec() <==> a == b,
        a.clave_spec() < LIMITE_CLAVE,
        Direccion::de_clave_spec(a.clave_spec()) == a,
{
}

/// Every key below the limit is the key of exactly the address it decodes to.
pub proof fn lema_de_clave(k: u64)
    requires
        k < LIMITE_CLAVE,
    ensures
        Direccion::de_clave_spec(k).clave_spec() == k,
{
}

/// A point of the integer grid on which the toy map is drawn.
#[derive(Clone, Copy, Debug, PartialEq, Eq, Structural)]
pub struct Coordenadas {
    pub x: i32,
    pub y: i32,
}

impl Coordenadas {
    /// The point from which the distance of couriers is measured.
    pub fn origen() -> (c: Coordenadas)
        ensures
            c == (Coordenadas { x: 0, y: 0 }),
    {
        Coordenadas { x: 0, y: 0 }
    }
}

/// Square of the Euclidean distance between two points. Distances are only
/// ever compared, and the square orders pairs of points as the distance does.
pub open spec fn distancia_cuadrada_spec(a: Coordenadas, b: Coordenadas) -> int {
    (a.x - b.x) * (a.x - b.x) + (a.y - b.y) * (a.y - b.y)
}

spec fn diferencia_spec(a: i32, b: i32) -> int {
    if a >= b {
        a - b
    } else {
        b - a
    }
}

fn diferencia(a: i32, b: i32) -> (d: u64)
    ensures
        d == diferencia_spec(a, b),
        d <= 0xFFFF_FFFF,
        d * d == (a - b) * (a - b),
{
    let x: i64 = a as i64;
    let y: i64 = b as i64;
    let d: i64 = if x >= y {
        x - y
    } else {
        y - x
    };
    assert(d * d == (a - b) * (a - b)) by (nonlinear_arith)
        requires
            d == a - b || d == b - a,
    ;
    d as u64
}

/// Computes the square of the distance between two points.
pub fn distancia_cuadrada(a: Coordenadas, b: Coordenadas) -> (d: u128)
    ensures
        d == distancia_cuadrada_spec(a, b),
{
    let dx: u128 = diferencia(a.x, b.x) as u128;
    let dy: u128 = diferencia(a.y, b.y) as u128;
    assert(dx * dx <= 0xFFFF_FFFF * 0xFFFF_FFFF) by (nonlinear_arith)
        requires
            0 <= dx <= 0xFFFF_FFFF,
    ;
    assert(dy * dy <= 0xFFFF_FFFF * 0xFFFF_FFFF) by (nonlinear_arith)
        requires
            0 <= dy <= 0xFFFF_FFFF,
    ;
    dx * dx + dy * dy
}

} // verus!
