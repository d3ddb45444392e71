use vstd::prelude::*;

verus! {

/// Seconds between two liveness probes of the leader.
pub const INTERVALO_PING: u64 = 2;

/// Attempts that every connection or send gets before it counts as failed.
pub const MAX_REINTENTOS: u8 = 3;

/// Port on which the payment gateway listens.
pub const PUERTO_GATEWAY: u16 = 8085;

/// Seconds of silence after which a peer link is too old to hand work to.
pub const TIEMPO_MAXIMO_SIN_PING: u64 = 5;

/// Seconds between two scans for stalled couriers.
pub const PERIODO_REAPER: u64 = 5;

/// Milliseconds that a courier may stay in `Waiting` before it is reaped.
pub const ESPERA_MAXIMA_REPARTIDOR_MS: u64 = 3000;

/// Seconds to wait for the gateway's answer.
pub const TIMEOUT_GATEWAY: u64 = 5;

/// Seconds to wait for the one-line acknowledgement of a ring hop or a ping.
pub const TIMEOUT_ACK: u64 = 3;

/// Seconds a client waits for the final acknowledgement of a delivery.
pub const TIMEOUT_ACK_CLIENTE: u64 = 2;

/// Lowest port of the replica ring.
pub const MIN_PEER_PORT: u16 = 8080;

/// Highest port of the replica ring.
pub const MAX_PEER_PORT: u16 = 8084;

/// Side of the square map on which positions are drawn.
pub const EXTENSION_MAPA: i32 = 50;

} // verus!
