use crate::almacenamiento::almacenamiento::VistaAlmacenamiento;
use crate::almacenamiento::handlers_almacenamiento::ausente;
use crate::almacenamiento::mensajes_almacenamiento::{
    BorrarComensal, BorrarRepartidor, BorrarRepartidoresAusentes, BorrarRestaurante,
    HayRecursosDisponibles, MensajeAlmacenamiento, RepartidorAusente, RespuestaAlmacenamiento,
};
use crate::common::mensajes::{
    Autorizacion, FinalizarViaje, OfertarViaje, PedidoAlRestaurante, Posicion,
    RespuestaOfertaViaje, SolicitarPedido, SolicitarRepartidor,
};
use crate::direccion::{Coordenadas, Direccion};
use crate::coordinador::mensajes_coordinador::{Accion, HandlePedido};
use crate::server::efectos::{Delta, Efecto, Linea, MotivoRechazo};
use crate::server::reaper::{efectos_de_ausente, efectos_de_ausentes};
use crate::eleccion::eleccion::EleccionCoordinador;
use crate::server::server::{baja_comensal, baja_repartidor, rechazo, Entrante, Server};
use crate::server::server_client::{acuses, valor_de_comensal, valor_de_repartidor};
use crate::server::server_coordinador::HacerPedido;
use crate::utils::acciones_gateway::obtener_respuesta_pago_spec;
use crate::utils::entidades::{Enviador, EstadoRepartidor, Instante};
use vstd::prelude::*;

verus! {

/// The lines that a list of effects sends to one writer, in their order.
pub open spec fn lineas_para(efectos: Seq<Efecto>, e: Enviador) -> Seq<Linea>
    decreases efectos.len(),
{
    if efectos.len() == 0 {
        Seq::empty()
    } else {
        let antes = lineas_para(efectos.drop_last(), e);
        match efectos.last() {
            Efecto::Enviar(a, l) => if a == e {
                antes.push(l)
            } else {
                antes
            },
            _ => antes,
        }
    }
}

/// Whether a list of effects asks anything of the gateway.
pub open spec fn consulta_gateway(efectos: Seq<Efecto>) -> bool {
    exists|i: int|
        0 <= i < efectos.len() && ((#[trigger] efectos[i]) is ValidarPago || efectos[i] is Cobrar)
}

/// A refusal is said once and is final: the diner, if it is stored and can
/// be written to, gets the refusal as its only line; nobody else gets a
/// line; and afterwards the diner is stored no longer, while couriers and
/// restaurants are as they were.
pub proof fn ley_rechazo_unico(
    v: VistaAlmacenamiento,
    comensal: Direccion,
    motivo: MotivoRechazo,
    e: Enviador,
)
    ensures
        ({
            let (w, efectos) = rechazo(v, comensal, motivo);
            &&& !w.comensales.contains_key(comensal)
            &&& w.repartidores == v.repartidores
            &&& w.restaurantes == v.restaurantes
            &&& !consulta_gateway(efectos)
            &&& lineas_para(efectos, e) == if v.comensales.contains_key(comensal)
                && v.comensales[comensal].enviador_comensal == Some(e) {
                seq![Linea::RechazarViaje(motivo)]
            } else {
                Seq::<Linea>::empty()
            }
        }),
{
    let (w, efectos) = rechazo(v, comensal, motivo);
    if v.comensales.contains_key(comensal) {
        let baja = Efecto::Difundir(baja_comensal(comensal));
        match v.comensales[comensal].enviador_comensal {
            Some(a) => {
                let aviso = Efecto::Enviar(a, Linea::RechazarViaje(motivo));
                assert(efectos =~= seq![aviso, baja]);
                assert(efectos.drop_last() =~= seq![aviso]);
                assert(seq![aviso].drop_last() =~= Seq::<Efecto>::empty());
                reveal_with_fuel(lineas_para, 3);
                assert(lineas_para(Seq::<Efecto>::empty(), e) =~= Seq::<Linea>::empty());
                if a == e {
                    assert(lineas_para(efectos, e) =~= seq![Linea::RechazarViaje(motivo)]);
                }
            },
            None => {
                assert(efectos =~= seq![baja]);
                assert(efectos.drop_last() =~= Seq::<Efecto>::empty());
                reveal_with_fuel(lineas_para, 2);
            },
        }
    }
}

/// The store has resources exactly when it holds a courier and a
/// restaurant, and being asked leaves it as it was.
pub proof fn ley_recursos(
    v: VistaAlmacenamiento,
    ahora: Instante,
    w: VistaAlmacenamiento,
    r: RespuestaAlmacenamiento,
)
    requires
        v.handle_post(
            MensajeAlmacenamiento::HayRecursosDisponibles(HayRecursosDisponibles),
            ahora,
            w,
            r,
        ),
    ensures
        w == v,
        r == RespuestaAlmacenamiento::Recursos(
            (exists|d: Direccion| v.repartidores.contains_key(d)) && (exists|d: Direccion|
                v.restaurantes.contains_key(d)),
        ),
{
    if exists|d: Direccion| v.repartidores.contains_key(d) {
        let d = choose|d: Direccion| v.repartidores.contains_key(d);
        assert(v.repartidores.dom().contains(d));
    }
    if exists|d: Direccion| v.restaurantes.contains_key(d) {
        let d = choose|d: Direccion| v.restaurantes.contains_key(d);
        assert(v.restaurantes.dom().contains(d));
    }
    if !(v.repartidores.dom() =~= Set::empty()) {
        let d = choose|d: Direccion| v.repartidores.dom().contains(d);
        assert(v.repartidores.contains_key(d));
    }
    if !(v.restaurantes.dom() =~= Set::empty()) {
        let d = choose|d: Direccion| v.restaurantes.dom().contains(d);
        assert(v.restaurantes.contains_key(d));
    }
}

/// An order that comes in while no courier or no restaurant is known is
/// refused at once, for want of resources: the diner gets that refusal as
/// its only line, the gateway is not asked, and the diner is not stored
/// afterwards.
pub proof fn ley_sin_recursos(
    s: Server,
    v: VistaAlmacenamiento,
    eleccion: &EleccionCoordinador,
    msg: SolicitarPedido,
    origen: Coordenadas,
    ahora: Instante,
    w: VistaAlmacenamiento,
    efectos: Seq<Efecto>,
)
    requires
        eleccion.es_coordinador_spec(),
        v.repartidores.dom() =~= Set::empty() || v.restaurantes.dom() =~= Set::empty(),
        s.handle_post(v, eleccion, Entrante::SolicitarPedido(msg), origen, ahora, w, efectos),
    ensures
        !consulta_gateway(efectos),
        lineas_para(efectos, s.tcp_enviador) == seq![
            Linea::RechazarViaje(MotivoRechazo::SinRecursos),
        ],
        !w.comensales.contains_key(s.client_addr),
        w.repartidores == v.repartidores,
        w.restaurantes == v.restaurantes,
{
    let con_comensal = v.insertar_comensal(s.alta_de_comensal(msg, origen));
    ley_rechazo_unico(con_comensal, s.client_addr, MotivoRechazo::SinRecursos, s.tcp_enviador);
}

/// A gateway that cannot be reached counts as one that refuses: what its
/// silence is read as makes the order be refused for want of funds, and
/// neither a restaurant nor a courier hears of it.
pub proof fn ley_gateway_inalcanzable(
    s: Server,
    v: VistaAlmacenamiento,
    eleccion: &EleccionCoordinador,
    comensal: Direccion,
    pedido: PedidoAlRestaurante,
    origen: Coordenadas,
    ahora: Instante,
    w: VistaAlmacenamiento,
    efectos: Seq<Efecto>,
)
    requires
        s.handle_post(
            v,
            eleccion,
            Entrante::Autorizacion(
                Autorizacion {
                    direccion_comensal: comensal,
                    esta_autorizado: obtener_respuesta_pago_spec(None),
                },
                pedido,
            ),
            origen,
            ahora,
            w,
            efectos,
        ),
    ensures
        (w, efectos) == rechazo(v, comensal, MotivoRechazo::SaldoInsuficiente),
        w.repartidores == v.repartidores,
        w.restaurantes == v.restaurantes,
{
}

/// A payment that the gateway refuses ends the order: the stored diner's
/// writer gets the refusal for want of funds as its only line, the diner is
/// stored no longer, and couriers and restaurants are as they were.
pub proof fn ley_pago_rechazado(
    s: Server,
    v: VistaAlmacenamiento,
    eleccion: &EleccionCoordinador,
    comensal: Direccion,
    pedido: PedidoAlRestaurante,
    origen: Coordenadas,
    ahora: Instante,
    w: VistaAlmacenamiento,
    efectos: Seq<Efecto>,
    e: Enviador,
)
    requires
        v.comensales.contains_key(comensal),
        v.comensales[comensal].enviador_comensal == Some(e),
        s.handle_post(
            v,
            eleccion,
            Entrante::Autorizacion(
                Autorizacion { direccion_comensal: comensal, esta_autorizado: false },
                pedido,
            ),
            origen,
            ahora,
            w,
            efectos,
        ),
    ensures
        lineas_para(efectos, e) == seq![Linea::RechazarViaje(MotivoRechazo::SaldoInsuficiente)],
        MotivoRechazo::SaldoInsuficiente.texto_spec() == "Viaje rechazado por saldo insuficiente"@,
        !w.comensales.contains_key(comensal),
        w.repartidores == v.repartidores,
        w.restaurantes == v.restaurantes,
{
    ley_rechazo_unico(v, comensal, MotivoRechazo::SaldoInsuficiente, e);
}

/// A payment that the gateway authorises is never answered with the
/// refusal for want of funds: the diner is refused only where no
/// restaurant is open, and then for want of resources.
pub proof fn ley_pago_autorizado(
    s: Server,
    v: VistaAlmacenamiento,
    eleccion: &EleccionCoordinador,
    comensal: Direccion,
    pedido: PedidoAlRestaurante,
    origen: Coordenadas,
    ahora: Instante,
    w: VistaAlmacenamiento,
    efectos: Seq<Efecto>,
    e: Enviador,
)
    requires
        s.handle_post(
            v,
            eleccion,
            Entrante::Autorizacion(
                Autorizacion { direccion_comensal: comensal, esta_autorizado: true },
                pedido,
            ),
            origen,
            ahora,
            w,
            efectos,
        ),
    ensures
        finales_para(efectos, e) == Seq::<Linea>::empty() || finales_para(efectos, e) == seq![
            Linea::RechazarViaje(MotivoRechazo::SinRecursos),
        ],
        finales_para(efectos, e).len() > 0 ==> forall|o: Direccion| #[trigger]
            v.restaurantes.contains_key(o) ==> v.restaurantes[o].estado != EstadoRepartidor::Active,
{
    let c = pedido.direccion_comensal_r;
    lema_finales_vacio(e);
    lema_finales_de_rechazo(v, c, MotivoRechazo::SinRecursos, e);
    if pedido.esta_aceptado && v.comensales.contains_key(c) {
        let r = choose|r: Option<crate::utils::entidades::EntidadRestaurante>|
            {
                &&& #[trigger] v.es_restaurante_cercano(pedido.posicion_comensal, r)
                &&& match r {
                    None => (w, efectos) == rechazo(v, c, MotivoRechazo::SinRecursos),
                    Some(x) => {
                        &&& w == v.actualizar_comensal_ubicacion_restaurante(
                            crate::almacenamiento::mensajes_almacenamiento::ActualizarComensalUbicacionRestaurante {
                                nueva_ubicacion: x.posicion_restaurante,
                                id_comensal: c,
                            },
                        )
                        &&& efectos == match x.repartidor_sender {
                            Some(a) => seq![
                                Efecto::Enviar(
                                    a,
                                    Linea::RecibirPedido(
                                        crate::common::mensajes::RecibirPedido {
                                            direccion_comensal_o: c,
                                            comida: pedido.comida,
                                            ubicacion_comensal: pedido.posicion_comensal,
                                        },
                                    ),
                                ),
                            ],
                            None => Seq::<Efecto>::empty(),
                        }
                    },
                }
            };
        match r {
            None => {},
            Some(x) => {
                match x.repartidor_sender {
                    Some(a) => {
                        lema_finales_uno(efectos[0], e);
                        assert(efectos =~= seq![efectos[0]]);
                    },
                    None => {},
                }
            },
        }
    }
}

/// The refusal of a restaurant is final for the diner and leaves every
/// courier as it was.
pub proof fn ley_restaurante_rechaza(v: VistaAlmacenamiento, msg: SolicitarRepartidor, lider: bool)
    requires
        !msg.pedido_aceptado,
    ensures
        Server::solicitar_repartidor_spec(v, msg, lider) == rechazo(
            v,
            msg.direccion_comensal,
            MotivoRechazo::Restaurante,
        ),
        Server::solicitar_repartidor_spec(v, msg, lider).0.repartidores == v.repartidores,
{
}

/// A finished delivery is acknowledged once. The first report for a stored
/// diner captures the payment, acknowledges the delivery once to each of
/// the writers it is owed to, the diner's among them, and forgets the
/// diner; every later report for that diner changes nothing and sends
/// nothing.
pub proof fn ley_ack_unico(
    s: Server,
    otra: Server,
    v: VistaAlmacenamiento,
    msg: FinalizarViaje,
    otro: FinalizarViaje,
    t1: Instante,
    t2: Instante,
)
    requires
        otro.direccion_comensal_f == msg.direccion_comensal_f,
    ensures
        ({
            let (w, efectos) = s.finalizar_viaje_spec(v, msg, t1);
            let d = s.destinatarios_de_ack(v, msg);
            &&& !w.comensales.contains_key(msg.direccion_comensal_f)
            &&& otra.finalizar_viaje_spec(w, otro, t2) == (w, Seq::<Efecto>::empty())
            &&& d.no_duplicates()
            &&& d.contains(s.tcp_enviador)
            &&& (v.comensales.contains_key(msg.direccion_comensal_f) ==> {
                &&& efectos[0] == Efecto::Cobrar(msg.direccion_comensal_f)
                &&& efectos.len() == d.len() + 3
                &&& forall|i: int|
                    0 <= i < d.len() ==> #[trigger] efectos[i + 1] == Efecto::Enviar(
                        d[i],
                        Linea::AckFinal,
                    )
                &&& !(efectos[d.len() as int + 1] is Enviar)
                &&& !(efectos[d.len() as int + 2] is Enviar)
                &&& (v.comensales[msg.direccion_comensal_f].enviador_comensal matches Some(e)
                    ==> d[0] == e)
            })
        }),
{
    let d = s.destinatarios_de_ack(v, msg);
    lema_acuses(d);
    let al_comensal = match valor_de_comensal(
        v,
        msg.direccion_comensal_f,
    ) {
        Some(e) => seq![e],
        None => Seq::<Enviador>::empty(),
    };
    let al_repartidor = match valor_de_repartidor(
        v,
        msg.direccion_conductor_f,
    ) {
        Some(e) => if al_comensal.contains(e) {
            al_comensal
        } else {
            al_comensal.push(e)
        },
        None => al_comensal,
    };
    assert(al_comensal.no_duplicates());
    assert(al_repartidor.no_duplicates());
    if al_repartidor.contains(s.tcp_enviador) {
        let i = choose|i: int| 0 <= i < al_repartidor.len() && al_repartidor[i] == s.tcp_enviador;
        assert(d[i] == s.tcp_enviador);
    } else {
        assert(d[d.len() - 1] == s.tcp_enviador);
    }
}

/// The acknowledgements for a list of writers are as many as the writers,
/// one to each, in their order.
pub proof fn lema_acuses(d: Seq<Enviador>)
    ensures
        acuses(d).len() == d.len(),
        forall|i: int|
            0 <= i < d.len() ==> #[trigger] acuses(d)[i]
                == Efecto::Enviar(d[i], Linea::AckFinal),
    decreases d.len(),
{
    if d.len() > 0 {
        lema_acuses(d.drop_last());
    }
}

/// After a finished delivery the courier is free again, assigned to
/// nobody, and stands where the delivery ended.
pub proof fn ley_repartidor_libre_tras_viaje(
    s: Server,
    v: VistaAlmacenamiento,
    msg: FinalizarViaje,
    ahora: Instante,
)
    requires
        v.bien_formada(),
        v.comensales.contains_key(msg.direccion_comensal_f),
        v.repartidores.contains_key(msg.direccion_conductor_f),
    ensures
        ({
            let w = s.finalizar_viaje_spec(v, msg, ahora).0;
            &&& w.bien_formada()
            &&& w.repartidores[msg.direccion_conductor_f].estado == EstadoRepartidor::Active
            &&& w.repartidores[msg.direccion_conductor_f].id_actual_comensal is None
            &&& w.repartidores[msg.direccion_conductor_f].posicion_repartidor == msg.pos_destino
        }),
{
}

/// Whether an effect writes the offer of a delivery.
pub open spec fn es_oferta(e: Efecto) -> bool {
    match e {
        Efecto::Enviar(_, Linea::OfertarViaje(_)) => true,
        _ => false,
    }
}

/// A delivery is offered to a courier that is free, and to no other. A
/// proposal makes the leader write an offer iff the proposed courier is
/// stored, free, and can be written to; that courier then waits for the
/// diner from `ahora` on. For a proposed courier that waits or is on a
/// trip, nothing is written, nothing changes, and the search starts again.
pub proof fn ley_oferta_a_repartidor_libre(v: VistaAlmacenamiento, msg: HacerPedido, ahora: Instante)
    requires
        v.bien_formada(),
    ensures
        ({
            let (w, efectos) = Server::hacer_pedido_spec(v, msg, ahora);
            let r = msg.id_repartidor_mt;
            let libre = v.repartidores.contains_key(r) && v.repartidores[r].estado
                == EstadoRepartidor::Active && v.repartidores[r].restaurante_sender is Some;
            &&& (exists|i: int| 0 <= i < efectos.len() && es_oferta(#[trigger] efectos[i])) <==> libre
            &&& libre ==> {
                &&& efectos == seq![
                    Efecto::Enviar(
                        v.repartidores[r].restaurante_sender->0,
                        Linea::OfertarViaje(OfertarViaje { direccion_comensal_o: msg.id_comensal_mt }),
                    ),
                ]
                &&& w.repartidores[r].estado == EstadoRepartidor::Waiting
                &&& w.repartidores[r].id_actual_comensal == Some(msg.id_comensal_mt)
                &&& w.repartidores[r].time_stamp == ahora
                &&& w.bien_formada()
            }
            &&& v.repartidores.contains_key(r) && v.repartidores[r].estado
                != EstadoRepartidor::Active ==> w == v && efectos == seq![
                Efecto::ManejarPedido(HandlePedido { id_comensal_ht: msg.id_comensal_mt }),
            ]
        }),
{
    let (w, efectos) = Server::hacer_pedido_spec(v, msg, ahora);
    let r = msg.id_repartidor_mt;
    let libre = v.repartidores.contains_key(r) && v.repartidores[r].estado
        == EstadoRepartidor::Active && v.repartidores[r].restaurante_sender is Some;
    if libre {
        assert(es_oferta(efectos[0]));
    } else {
        assert forall|i: int| 0 <= i < efectos.len() implies !es_oferta(#[trigger] efectos[i]) by {}
    }
}

/// A delivery starts once for an offer. Only the courier that was offered
/// the delivery and has not answered can start it; once it has started it,
/// or has refused it, a further answer of that courier changes nothing and
/// sends nothing.
pub proof fn ley_inicio_unico(
    s: Server,
    v: VistaAlmacenamiento,
    msg: RespuestaOfertaViaje,
    otra: RespuestaOfertaViaje,
    t1: Instante,
    t2: Instante,
)
    requires
        v.bien_formada(),
    ensures
        ({
            let (w, efectos) = s.respuesta_oferta_viaje_spec(v, msg, t1);
            &&& (!s.espera_respuesta(v, msg.direccion_comensal_r) ==> w == v && efectos
                == Seq::<Efecto>::empty())
            &&& (efectos.len() > 0 ==> s.respuesta_oferta_viaje_spec(w, otra, t2) == (
                w,
                Seq::<Efecto>::empty(),
            ))
            &&& (efectos.len() > 0 && msg.esta_aceptado
                ==> w.repartidores[s.client_addr].estado == EstadoRepartidor::OnTrip)
            &&& (efectos.len() > 0 && !msg.esta_aceptado
                ==> w.repartidores[s.client_addr].estado == EstadoRepartidor::Active)
        }),
{
}

/// Taking a delta in twice is taking it in once: what the store holds
/// after the second time, at `t2`, is what it would hold had the delta
/// only come then.
pub proof fn ley_delta_idempotente(
    s: Server,
    v: VistaAlmacenamiento,
    delta: Delta,
    t1: Instante,
    t2: Instante,
)
    ensures
        s.aplicar_delta_spec(s.aplicar_delta_spec(v, delta, t1), delta, t2) == s.aplicar_delta_spec(
            v,
            delta,
            t2,
        ),
{
    let una = s.aplicar_delta_spec(v, delta, t2);
    let dos = s.aplicar_delta_spec(s.aplicar_delta_spec(v, delta, t1), delta, t2);
    assert(dos.comensales =~= una.comensales);
    assert(dos.repartidores =~= una.repartidores);
    assert(dos.restaurantes =~= una.restaurantes);
}

/// Removing what is not stored changes nothing.
pub proof fn ley_borrar_ausente(v: VistaAlmacenamiento, d: Direccion)
    ensures
        !v.comensales.contains_key(d) ==> v.borrar_comensal(BorrarComensal { id: d }) == v,
        !v.repartidores.contains_key(d) ==> v.borrar_repartidor(BorrarRepartidor { id: d }) == v,
        !v.restaurantes.contains_key(d) ==> v.borrar_restaurante(BorrarRestaurante { id: d }) == v,
{
    if !v.comensales.contains_key(d) {
        assert(v.comensales.remove(d) =~= v.comensales);
    }
    if !v.repartidores.contains_key(d) {
        assert(v.repartidores.remove(d) =~= v.repartidores);
    }
    if !v.restaurantes.contains_key(d) {
        assert(v.restaurantes.remove(d) =~= v.restaurantes);
    }
}

/// A courier that has been waiting for strictly more than three seconds
/// does not survive a scan, nor does the diner it held up, and the store's
/// answer reports it once, with that diner and the diner's writer; a
/// courier that has waited three seconds or less stays as it is and is not
/// reported, as does every courier that is not waiting.
pub proof fn ley_reaper(
    v: VistaAlmacenamiento,
    ahora: Instante,
    d: Direccion,
    w: VistaAlmacenamiento,
    r: RespuestaAlmacenamiento,
)
    requires
        v.bien_formada(),
        v.repartidores.contains_key(d),
        v.handle_post(
            MensajeAlmacenamiento::BorrarRepartidoresAusentes(BorrarRepartidoresAusentes),
            ahora,
            w,
            r,
        ),
    ensures
        ({
            let x = v.repartidores[d];
            let esperando_de_mas = x.estado == EstadoRepartidor::Waiting && ahora >= x.time_stamp
                && ahora - x.time_stamp > 3000;
            &&& w.bien_formada()
            &&& w.restaurantes == v.restaurantes
            &&& esperando_de_mas <==> !w.repartidores.contains_key(d)
            &&& esperando_de_mas ==> x.id_actual_comensal is Some && !w.comensales.contains_key(
                x.id_actual_comensal->0,
            )
            &&& !esperando_de_mas ==> w.repartidores[d] == x
            &&& r matches RespuestaAlmacenamiento::Ausentes(a) && {
                &&& esperando_de_mas <==> exists|i: int|
                    0 <= i < a@.len() && (#[trigger] a@[i]).id_repartidor == d
                &&& forall|i: int|
                    0 <= i < a@.len() && (#[trigger] a@[i]).id_repartidor == d ==> a@[i]
                        == v.informe_de_ausente(d)
                &&& forall|i: int, j: int|
                    0 <= i < a@.len() && 0 <= j < a@.len() && (#[trigger] a@[i]).id_repartidor == d
                        && (#[trigger] a@[j]).id_repartidor == d ==> i == j
            }
        }),
{
    let x = v.repartidores[d];
    if ausente(x, ahora) {
        assert(v.ausentes(ahora).contains(d));
        assert(x.coherente());
        assert(v.comensales_de_ausentes(ahora).contains(x.id_actual_comensal->0));
    }
}

/// A proposal for a diner that no courier is assigned to keeps every
/// diner with one courier at most.
pub proof fn ley_asignaciones_tras_pedido(v: VistaAlmacenamiento, msg: HacerPedido, ahora: Instante)
    requires
        v.asignaciones_unicas(),
        !v.tiene_repartidor(msg.id_comensal_mt),
    ensures
        Server::hacer_pedido_spec(v, msg, ahora).0.asignaciones_unicas(),
{
    let w = Server::hacer_pedido_spec(v, msg, ahora).0;
    assert forall|a: Direccion, b: Direccion|
        #![trigger w.repartidores[a], w.repartidores[b]]
        w.repartidores.contains_key(a) && w.repartidores.contains_key(b)
            && w.repartidores[a].id_actual_comensal is Some
            && w.repartidores[a].id_actual_comensal
            == w.repartidores[b].id_actual_comensal implies a == b by {
        assert(v.repartidores.contains_key(a));
        assert(v.repartidores.contains_key(b));
        if a != b {
            if w.repartidores[a] != v.repartidores[a] {
                assert(w.repartidores[b] == v.repartidores[b]);
            } else if w.repartidores[b] != v.repartidores[b] {
                assert(w.repartidores[a] == v.repartidores[a]);
            } else {
                assert(v.repartidores[a].id_actual_comensal
                    == v.repartidores[b].id_actual_comensal);
            }
        }
    }
}

/// Answers to offers, finished deliveries, scans for stalled couriers and
/// announcements of couriers keep every diner with one courier at most.
pub proof fn ley_asignaciones_se_conservan(
    s: Server,
    v: VistaAlmacenamiento,
    respuesta: RespuestaOfertaViaje,
    fin: FinalizarViaje,
    posicion: Posicion,
    ahora: Instante,
)
    requires
        v.asignaciones_unicas(),
    ensures
        s.respuesta_oferta_viaje_spec(v, respuesta, ahora).0.asignaciones_unicas(),
        s.finalizar_viaje_spec(v, fin, ahora).0.asignaciones_unicas(),
        v.borrar_repartidores_ausentes(ahora).asignaciones_unicas(),
        s.posicion_spec(v, posicion, true, ahora).0.asignaciones_unicas(),
{
    let w1 = s.respuesta_oferta_viaje_spec(v, respuesta, ahora).0;
    assert forall|a: Direccion, b: Direccion|
        #![trigger w1.repartidores[a], w1.repartidores[b]]
        w1.repartidores.contains_key(a) && w1.repartidores.contains_key(b)
            && w1.repartidores[a].id_actual_comensal is Some
            && w1.repartidores[a].id_actual_comensal
            == w1.repartidores[b].id_actual_comensal implies a == b by {
        assert(v.repartidores.contains_key(a) && v.repartidores.contains_key(b));
        if a != b {
            assert(v.repartidores[a].id_actual_comensal == w1.repartidores[a].id_actual_comensal);
            assert(v.repartidores[b].id_actual_comensal == w1.repartidores[b].id_actual_comensal);
        }
    }
    let w2 = s.finalizar_viaje_spec(v, fin, ahora).0;
    assert forall|a: Direccion, b: Direccion|
        #![trigger w2.repartidores[a], w2.repartidores[b]]
        w2.repartidores.contains_key(a) && w2.repartidores.contains_key(b)
            && w2.repartidores[a].id_actual_comensal is Some
            && w2.repartidores[a].id_actual_comensal
            == w2.repartidores[b].id_actual_comensal implies a == b by {
        assert(v.repartidores.contains_key(a) && v.repartidores.contains_key(b));
        if a != b {
            assert(v.repartidores[a].id_actual_comensal == w2.repartidores[a].id_actual_comensal);
            assert(v.repartidores[b].id_actual_comensal == w2.repartidores[b].id_actual_comensal);
        }
    }
    let w3 = v.borrar_repartidores_ausentes(ahora);
    assert forall|a: Direccion, b: Direccion|
        #![trigger w3.repartidores[a], w3.repartidores[b]]
        w3.repartidores.contains_key(a) && w3.repartidores.contains_key(b)
            && w3.repartidores[a].id_actual_comensal is Some
            && w3.repartidores[a].id_actual_comensal
            == w3.repartidores[b].id_actual_comensal implies a == b by {
        assert(v.repartidores.contains_key(a) && v.repartidores.contains_key(b));
        assert(v.repartidores[a] == w3.repartidores[a]);
        assert(v.repartidores[b] == w3.repartidores[b]);
    }
    let w4 = s.posicion_spec(v, posicion, true, ahora).0;
    assert forall|a: Direccion, b: Direccion|
        #![trigger w4.repartidores[a], w4.repartidores[b]]
        w4.repartidores.contains_key(a) && w4.repartidores.contains_key(b)
            && w4.repartidores[a].id_actual_comensal is Some
            && w4.repartidores[a].id_actual_comensal
            == w4.repartidores[b].id_actual_comensal implies a == b by {
        if a != b {
            assert(a != s.client_addr);
            assert(b != s.client_addr);
            assert(v.repartidores.contains_key(a) && v.repartidores.contains_key(b));
            assert(v.repartidores[a] == w4.repartidores[a]);
            assert(v.repartidores[b] == w4.repartidores[b]);
        }
    }
}

/// While every diner has one courier at most, a scan for stalled couriers
/// names no diner twice, so that no diner is told twice.
pub proof fn ley_reaper_un_aviso(
    v: VistaAlmacenamiento,
    ahora: Instante,
    informes: Seq<RepartidorAusente>,
)
    requires
        v.asignaciones_unicas(),
        v.informa(ahora, informes),
    ensures
        forall|i: int, j: int|
            0 <= i < j < informes.len() && informes[i].id_comensal is Some
                ==> informes[i].id_comensal != informes[j].id_comensal,
{
    assert forall|i: int, j: int|
        0 <= i < j < informes.len() && informes[i].id_comensal
            is Some implies informes[i].id_comensal != informes[j].id_comensal by {
        let a = informes[i].id_repartidor;
        let b = informes[j].id_repartidor;
        assert(v.ausentes(ahora).contains(a));
        assert(v.ausentes(ahora).contains(b));
        assert(informes[i] == v.informe_de_ausente(a));
        assert(informes[j] == v.informe_de_ausente(b));
        assert(a != b);
        if informes[i].id_comensal == informes[j].id_comensal {
            assert(v.repartidores[a].id_actual_comensal == v.repartidores[b].id_actual_comensal);
        }
    }
}

/// No writer serves two of the stored diners.
pub open spec fn escritores_unicos(v: VistaAlmacenamiento) -> bool {
    forall|a: Direccion, b: Direccion|
        #![trigger v.comensales[a], v.comensales[b]]
        v.comensales.contains_key(a) && v.comensales.contains_key(b)
            && v.comensales[a].enviador_comensal is Some && v.comensales[a].enviador_comensal
            == v.comensales[b].enviador_comensal ==> a == b
}

/// The lines for a writer in two lists of effects, one after the other, are
/// its lines in the first followed by its lines in the second.
pub proof fn lema_lineas_para_suma(a: Seq<Efecto>, b: Seq<Efecto>, e: Enviador)
    ensures
        lineas_para(a + b, e) == lineas_para(a, e) + lineas_para(b, e),
    decreases b.len(),
{
    if b.len() == 0 {
        assert(a + b =~= a);
        assert(lineas_para(a, e) + lineas_para(b, e) =~= lineas_para(a, e));
    } else {
        lema_lineas_para_suma(a, b.drop_last(), e);
        assert((a + b).drop_last() =~= a + b.drop_last());
        assert((a + b).last() == b.last());
        let x = lineas_para(a, e);
        let y = lineas_para(b.drop_last(), e);
        match b.last() {
            Efecto::Enviar(d, l) => {
                if d == e {
                    assert((x + y).push(l) =~= x + y.push(l));
                }
            },
            _ => {},
        }
    }
}

/// What a scan writes for one stalled courier, to one writer: the refusal
/// if the writer is that of the diner it held up, and nothing otherwise.
proof fn lema_lineas_de_ausente(
    a: RepartidorAusente,
    e: Enviador,
)
    ensures
        lineas_para(efectos_de_ausente(a), e) == if a.enviador_comensal
            == Some(e) {
            seq![Linea::RechazarViaje(MotivoRechazo::RepartidorDesconectado)]
        } else {
            Seq::<Linea>::empty()
        },
{
    let f = efectos_de_ausente(a);
    let uno = seq![Efecto::Difundir(baja_repartidor(a.id_repartidor))];
    let dos = match a.id_comensal {
        Some(c) => seq![Efecto::Difundir(baja_comensal(c))],
        None => Seq::<Efecto>::empty(),
    };
    let tres = match a.enviador_comensal {
        Some(x) => seq![
            Efecto::Enviar(x, Linea::RechazarViaje(MotivoRechazo::RepartidorDesconectado)),
        ],
        None => Seq::<Efecto>::empty(),
    };
    assert(f == uno + dos + tres);
    lema_lineas_para_suma(uno + dos, tres, e);
    lema_lineas_para_suma(uno, dos, e);
    reveal_with_fuel(lineas_para, 2);
    assert(uno.drop_last() =~= Seq::<Efecto>::empty());
    assert(lineas_para(uno, e) =~= Seq::<Linea>::empty());
    if dos.len() > 0 {
        assert(dos.drop_last() =~= Seq::<Efecto>::empty());
    }
    assert(lineas_para(dos, e) =~= Seq::<Linea>::empty());
    if tres.len() > 0 {
        assert(tres.drop_last() =~= Seq::<Efecto>::empty());
    }
    assert(lineas_para(f, e) =~= lineas_para(tres, e));
}

/// One of the first `n` reports was written to the writer `e`.
spec fn avisado(
    s: Seq<RepartidorAusente>,
    n: int,
    e: Enviador,
) -> bool {
    exists|i: int| 0 <= i < n && (#[trigger] s[i]).enviador_comensal == Some(e)
}

proof fn lema_un_aviso_por_escritor(
    s: Seq<RepartidorAusente>,
    n: int,
    e: Enviador,
)
    requires
        0 <= n <= s.len(),
        forall|i: int, j: int|
            0 <= i < j < s.len() && s[i].enviador_comensal is Some ==> s[i].enviador_comensal
                != s[j].enviador_comensal,
    ensures
        lineas_para(efectos_de_ausentes(s.take(n)), e) == if avisado(
            s,
            n,
            e,
        ) {
            seq![Linea::RechazarViaje(MotivoRechazo::RepartidorDesconectado)]
        } else {
            Seq::<Linea>::empty()
        },
    decreases n,
{
    let t = s.take(n);
    if n == 0 {
        reveal_with_fuel(lineas_para, 1);
    } else {
        lema_un_aviso_por_escritor(s, n - 1, e);
        assert(t.drop_last() =~= s.take(n - 1));
        assert(t.last() == s[n - 1]);
        let antes = efectos_de_ausentes(s.take(n - 1));
        let ultimo = efectos_de_ausente(s[n - 1]);
        lema_lineas_para_suma(antes, ultimo, e);
        lema_lineas_de_ausente(s[n - 1], e);
        if avisado(s, n - 1, e) {
            let i = choose|i: int| 0 <= i < n - 1 && (#[trigger] s[i]).enviador_comensal == Some(e);
            assert(s[i].enviador_comensal != s[n - 1].enviador_comensal);
            assert(avisado(s, n, e));
            assert(lineas_para(antes, e) + Seq::<Linea>::empty() =~= lineas_para(antes, e));
        } else if s[n - 1].enviador_comensal == Some(e) {
            assert(avisado(s, n, e));
            assert(Seq::<Linea>::empty() + lineas_para(ultimo, e) =~= lineas_para(ultimo, e));
        } else {
            assert(!avisado(s, n, e)) by {
                if avisado(s, n, e) {
                    let i = choose|i: int|
                        0 <= i < n && (#[trigger] s[i]).enviador_comensal == Some(e);
                    assert(i < n - 1);
                    assert(avisado(s, n - 1, e));
                }
            }
            assert(lineas_para(antes, e) + Seq::<Linea>::empty() =~= lineas_para(antes, e));
        }
    }
}

/// A scan for stalled couriers tells every diner once at most. While no
/// diner has two couriers and no writer serves two diners, the lines that
/// a scan writes to any one writer are the one refusal, or none; and the
/// diner that is told is stored no longer.
pub proof fn ley_reaper_avisa_una_vez(
    v: VistaAlmacenamiento,
    ahora: Instante,
    informes: Seq<RepartidorAusente>,
    e: Enviador,
)
    requires
        v.asignaciones_unicas(),
        escritores_unicos(v),
        v.informa(ahora, informes),
    ensures
        ({
            let lineas = lineas_para(efectos_de_ausentes(informes), e);
            let w = v.borrar_repartidores_ausentes(ahora);
            &&& lineas == Seq::<Linea>::empty() || lineas == seq![
                Linea::RechazarViaje(MotivoRechazo::RepartidorDesconectado),
            ]
            &&& lineas.len() > 0 ==> forall|d: Direccion|
                #![trigger v.comensales[d]]
                v.comensales.contains_key(d) && v.comensales[d].enviador_comensal == Some(e)
                    ==> !w.comensales.contains_key(d)
        }),
{
    ley_reaper_un_aviso(v, ahora, informes);
    assert forall|i: int, j: int|
        0 <= i < j < informes.len() && informes[i].enviador_comensal
            is Some implies informes[i].enviador_comensal != informes[j].enviador_comensal by {
        let a = informes[i].id_repartidor;
        let b = informes[j].id_repartidor;
        assert(v.ausentes(ahora).contains(a));
        assert(v.ausentes(ahora).contains(b));
        assert(informes[i] == v.informe_de_ausente(a));
        assert(informes[j] == v.informe_de_ausente(b));
        if informes[i].enviador_comensal == informes[j].enviador_comensal {
            let ca = informes[i].id_comensal->0;
            let cb = informes[j].id_comensal->0;
            assert(v.comensales[ca].enviador_comensal == v.comensales[cb].enviador_comensal);
            assert(ca == cb);
        }
    }
    lema_un_aviso_por_escritor(informes, informes.len() as int, e);
    assert(informes.take(informes.len() as int) =~= informes);
    let lineas = lineas_para(efectos_de_ausentes(informes), e);
    let w = v.borrar_repartidores_ausentes(ahora);
    if lineas.len() > 0 {
        assert(avisado(informes, informes.len() as int, e));
        let i = choose|i: int|
            0 <= i < informes.len() && (#[trigger] informes[i]).enviador_comensal == Some(e);
        let r = informes[i].id_repartidor;
        assert(v.ausentes(ahora).contains(r));
        assert(informes[i] == v.informe_de_ausente(r));
        let c = informes[i].id_comensal->0;
        assert(v.comensales_de_ausentes(ahora).contains(c));
        assert forall|d: Direccion|
            #![trigger v.comensales[d]]
            v.comensales.contains_key(d) && v.comensales[d].enviador_comensal == Some(
                e,
            ) implies !w.comensales.contains_key(d) by {
            assert(v.comensales[c].enviador_comensal == v.comensales[d].enviador_comensal);
            assert(c == d);
        }
    }
}

/// Whether a line ends an order for the diner who gets it: a refusal, or
/// the acknowledgement of the delivery.
pub open spec fn es_final(l: Linea) -> bool {
    l is RechazarViaje || l is AckFinal
}

/// The lines that a list of effects sends to one writer and that end an
/// order, in their order.
pub open spec fn finales_para(efectos: Seq<Efecto>, e: Enviador) -> Seq<Linea>
    decreases efectos.len(),
{
    if efectos.len() == 0 {
        Seq::empty()
    } else {
        let antes = finales_para(efectos.drop_last(), e);
        match efectos.last() {
            Efecto::Enviar(a, l) => if a == e && es_final(l) {
                antes.push(l)
            } else {
                antes
            },
            _ => antes,
        }
    }
}

/// The final lines of one effect for a writer.
pub open spec fn final_de(x: Efecto, e: Enviador) -> Seq<Linea> {
    match x {
        Efecto::Enviar(a, l) => if a == e && es_final(l) {
            seq![l]
        } else {
            Seq::empty()
        },
        _ => Seq::empty(),
    }
}

proof fn lema_finales_push(a: Seq<Efecto>, x: Efecto, e: Enviador)
    ensures
        finales_para(a.push(x), e) == finales_para(a, e) + final_de(x, e),
{
    assert(a.push(x).drop_last() =~= a);
    assert(finales_para(a, e) + Seq::<Linea>::empty() =~= finales_para(a, e));
    match x {
        Efecto::Enviar(d, l) => {
            assert(finales_para(a, e).push(l) =~= finales_para(a, e) + seq![l]);
        },
        _ => {},
    }
}

proof fn lema_finales_vacio(e: Enviador)
    ensures
        finales_para(Seq::<Efecto>::empty(), e) == Seq::<Linea>::empty(),
{
}

proof fn lema_finales_suma(a: Seq<Efecto>, b: Seq<Efecto>, e: Enviador)
    ensures
        finales_para(a + b, e) == finales_para(a, e) + finales_para(b, e),
    decreases b.len(),
{
    if b.len() == 0 {
        assert(a + b =~= a);
        assert(finales_para(a, e) + finales_para(b, e) =~= finales_para(a, e));
    } else {
        lema_finales_suma(a, b.drop_last(), e);
        assert(a + b =~= (a + b.drop_last()).push(b.last()));
        assert(b =~= b.drop_last().push(b.last()));
        lema_finales_push(a + b.drop_last(), b.last(), e);
        lema_finales_push(b.drop_last(), b.last(), e);
        assert((finales_para(a, e) + finales_para(b.drop_last(), e)) + final_de(b.last(), e)
            =~= finales_para(a, e) + (finales_para(b.drop_last(), e) + final_de(b.last(), e)));
    }
}

proof fn lema_finales_uno(x: Efecto, e: Enviador)
    ensures
        finales_para(seq![x], e) == final_de(x, e),
{
    assert(seq![x] =~= Seq::<Efecto>::empty().push(x));
    lema_finales_push(Seq::<Efecto>::empty(), x, e);
    assert(Seq::<Linea>::empty() + final_de(x, e) =~= final_de(x, e));
}

proof fn lema_finales_dos(x: Efecto, y: Efecto, e: Enviador)
    ensures
        finales_para(seq![x, y], e) == final_de(x, e) + final_de(y, e),
{
    assert(seq![x, y] =~= seq![x].push(y));
    lema_finales_push(seq![x], y, e);
    lema_finales_uno(x, e);
}

proof fn lema_finales_tres(x: Efecto, y: Efecto, z: Efecto, e: Enviador)
    ensures
        finales_para(seq![x, y, z], e) == final_de(x, e) + final_de(y, e) + final_de(z, e),
{
    assert(seq![x, y, z] =~= seq![x, y].push(z));
    lema_finales_push(seq![x, y], z, e);
    lema_finales_dos(x, y, e);
}

/// The final lines of a refusal for a writer: the refusal, if the writer is
/// that of the refused diner.
proof fn lema_finales_de_rechazo(v: VistaAlmacenamiento, c: Direccion, m: MotivoRechazo, e: Enviador)
    ensures
        finales_para(rechazo(v, c, m).1, e) == if v.comensales.contains_key(c)
            && v.comensales[c].enviador_comensal == Some(e) {
            seq![Linea::RechazarViaje(m)]
        } else {
            Seq::<Linea>::empty()
        },
        rechazo(v, c, m).0.comensales == v.comensales.remove(c),
        rechazo(v, c, m).0.repartidores == v.repartidores,
{
    let ef = rechazo(v, c, m).1;
    if v.comensales.contains_key(c) {
        let baja = Efecto::Difundir(baja_comensal(c));
        match v.comensales[c].enviador_comensal {
            Some(a) => {
                let aviso = Efecto::Enviar(a, Linea::RechazarViaje(m));
                assert(ef =~= seq![aviso, baja]);
                lema_finales_dos(aviso, baja, e);
                assert(final_de(aviso, e) + Seq::<Linea>::empty() =~= final_de(aviso, e));
            },
            None => {
                assert(ef =~= seq![baja]);
                lema_finales_uno(baja, e);
            },
        }
    } else {
        assert(v.comensales.remove(c) =~= v.comensales);
    }
}

/// The final lines of the acknowledgements for a writer: the
/// acknowledgement, once, if the writer is among those acknowledged to.
proof fn lema_finales_de_acuses(ds: Seq<Enviador>, e: Enviador)
    requires
        ds.no_duplicates(),
    ensures
        finales_para(acuses(ds), e) == if ds.contains(e) {
            seq![Linea::AckFinal]
        } else {
            Seq::<Linea>::empty()
        },
    decreases ds.len(),
{
    if ds.len() > 0 {
        let antes = ds.drop_last();
        lema_finales_de_acuses(antes, e);
        let x = Efecto::Enviar(ds.last(), Linea::AckFinal);
        lema_finales_push(acuses(antes), x, e);
        if ds.last() == e {
            assert(!antes.contains(e)) by {
                if antes.contains(e) {
                    let i = choose|i: int| 0 <= i < antes.len() && antes[i] == e;
                    assert(ds[i] == ds[ds.len() - 1]);
                }
            }
            assert(ds[ds.len() - 1] == e);
            assert(Seq::<Linea>::empty() + seq![Linea::AckFinal] =~= seq![Linea::AckFinal]);
        } else {
            if antes.contains(e) {
                let i = choose|i: int| 0 <= i < antes.len() && antes[i] == e;
                assert(ds[i] == e);
                assert(seq![Linea::AckFinal] + Seq::<Linea>::empty() =~= seq![Linea::AckFinal]);
            } else {
                assert(!ds.contains(e)) by {
                    if ds.contains(e) {
                        let i = choose|i: int| 0 <= i < ds.len() && ds[i] == e;
                        assert(antes[i] == e);
                    }
                }
                assert(Seq::<Linea>::empty() + Seq::<Linea>::empty() =~= Seq::<Linea>::empty());
            }
        }
    }
}

/// The writer `e` serves the diner `d` alone: no other stored diner and no
/// stored courier is written to through it.
pub open spec fn solo_de(v: VistaAlmacenamiento, e: Enviador, d: Direccion) -> bool {
    &&& forall|c: Direccion| #[trigger]
        v.comensales.contains_key(c) && v.comensales[c].enviador_comensal == Some(e) ==> c == d
    &&& forall|r: Direccion| #[trigger]
        v.repartidores.contains_key(r) ==> v.repartidores[r].restaurante_sender != Some(e)
}

/// The session keeps to its own: where it writes through `e`, it is the
/// session of the diner `d`, and what it reports finished is `d`'s own
/// delivery.
pub open spec fn sesion_propia(s: Server, msg: Entrante, e: Enviador, d: Direccion) -> bool {
    s.tcp_enviador == e ==> s.client_addr == d && (msg matches Entrante::FinalizarViaje(m)
        ==> m.direccion_comensal_f == d)
}

/// The message enters the diner `d` into the store: it is an order of `d`,
/// or the delta that inserts `d`.
pub open spec fn entra(s: Server, msg: Entrante, d: Direccion) -> bool {
    match msg {
        Entrante::SolicitarPedido(_) => s.client_addr == d,
        Entrante::ActualizarComensales(m) => m.accion == Accion::Insertar && m.comensal == d,
        _ => false,
    }
}

/// Whatever message the hub handles, it writes to the writer of a diner at
/// most one line that ends an order, a refusal or the acknowledgement of
/// the delivery, and a diner who is written such a line is stored no
/// longer. A diner that is not stored is written no such line, and stays
/// out of the store, unless the message enters it. This holds while the
/// writer serves that diner alone and sessions keep to their own.
pub proof fn ley_un_final_por_mensaje(
    s: Server,
    v: VistaAlmacenamiento,
    eleccion: &EleccionCoordinador,
    msg: Entrante,
    origen: Coordenadas,
    ahora: Instante,
    w: VistaAlmacenamiento,
    efectos: Seq<Efecto>,
    e: Enviador,
    d: Direccion,
)
    requires
        s.handle_post(v, eleccion, msg, origen, ahora, w, efectos),
        solo_de(v, e, d),
        sesion_propia(s, msg, e, d),
    ensures
        finales_para(efectos, e).len() <= 1,
        finales_para(efectos, e).len() == 1 ==> !w.comensales.contains_key(d),
        !v.comensales.contains_key(d) && !entra(s, msg, d) ==> finales_para(efectos, e).len() == 0
            && !w.comensales.contains_key(d),
{
    let ack = Efecto::Enviar(s.tcp_enviador, Linea::Ack);
    lema_finales_vacio(e);
    match msg {
        Entrante::MensajePing(m) => {
            lema_finales_dos(
                ack,
                Efecto::ConectarNuevoServidor(
                    crate::coordinador::mensajes_coordinador::ConectarNuevoServidor {
                        nuevo_servidor: m.id_enviador,
                    },
                ),
                e,
            );
        },
        Entrante::MensajeEleccion(m) => {
            lema_finales_dos(ack, Efecto::Eleccion(m), e);
        },
        Entrante::MensajeCoordinador(m) => {
            lema_finales_dos(ack, Efecto::Coordinador(m), e);
        },
        Entrante::SolicitarRepartidor(m) => {
            if !m.pedido_aceptado {
                lema_finales_de_rechazo(v, m.direccion_comensal, MotivoRechazo::Restaurante, e);
            } else {
                lema_finales_uno(
                    Efecto::ManejarPedido(HandlePedido { id_comensal_ht: m.direccion_comensal }),
                    e,
                );
            }
        },
        Entrante::SolicitarPedido(m) => {
            if eleccion.es_coordinador_spec() {
                let con = v.insertar_comensal(s.alta_de_comensal(m, origen));
                if v.hay_recursos() {
                    lema_finales_dos(
                        Efecto::Difundir(
                            crate::server::server::alta_comensal(s.client_addr, origen, m.destino),
                        ),
                        Efecto::ValidarPago(s.pedido_de(m)),
                        e,
                    );
                } else {
                    lema_finales_de_rechazo(con, s.client_addr, MotivoRechazo::SinRecursos, e);
                }
            }
        },
        Entrante::Posicion(m) => {
            if eleccion.es_coordinador_spec() {
                lema_finales_uno(
                    Efecto::Difundir(
                        crate::server::server::alta_repartidor(s.client_addr, m.posicion),
                    ),
                    e,
                );
            }
        },
        Entrante::MensajeIdentidad(m) => {
            if eleccion.es_coordinador_spec() {
                if m.soy_repartidor {
                    lema_finales_uno(
                        Efecto::Difundir(
                            crate::server::server::alta_repartidor(s.client_addr, m.ubicacion),
                        ),
                        e,
                    );
                } else {
                    lema_finales_uno(
                        Efecto::Difundir(
                            crate::server::server::alta_restaurante(s.client_addr, m.ubicacion),
                        ),
                        e,
                    );
                }
            }
        },
        Entrante::FinalizarViaje(m) => {
            if !v.finalizado(m.direccion_comensal_f) {
                let ds = s.destinatarios_de_ack(v, m);
                ley_ack_unico(s, s, v, m, m, ahora, ahora);
                lema_finales_de_acuses(ds, e);
                let cola = seq![
                    Efecto::Difundir(
                        crate::server::server::cambio_repartidor(
                            m.direccion_conductor_f,
                            m.pos_destino,
                            None,
                            EstadoRepartidor::Active,
                        ),
                    ),
                    Efecto::Difundir(baja_comensal(m.direccion_comensal_f)),
                ];
                let cabeza = seq![Efecto::Cobrar(m.direccion_comensal_f)];
                lema_finales_suma(cabeza + acuses(ds), cola, e);
                lema_finales_suma(cabeza, acuses(ds), e);
                lema_finales_uno(Efecto::Cobrar(m.direccion_comensal_f), e);
                lema_finales_dos(cola[0], cola[1], e);
                assert(cola =~= seq![cola[0], cola[1]]);
                assert(Seq::<Linea>::empty() + finales_para(acuses(ds), e) + Seq::<Linea>::empty()
                    =~= finales_para(acuses(ds), e));
                if ds.contains(e) {
                    // The writer is the diner's, the courier's or the
                    // reporter's; it is no courier's, and a reporter that
                    // writes through it reports its own delivery.
                    assert(m.direccion_comensal_f == d) by {
                        let al_comensal = match valor_de_comensal(v, m.direccion_comensal_f) {
                            Some(x) => seq![x],
                            None => Seq::<Enviador>::empty(),
                        };
                        let al_repartidor = match valor_de_repartidor(v, m.direccion_conductor_f) {
                            Some(x) => if al_comensal.contains(x) {
                                al_comensal
                            } else {
                                al_comensal.push(x)
                            },
                            None => al_comensal,
                        };
                        let i = choose|i: int| 0 <= i < ds.len() && ds[i] == e;
                        if al_comensal.contains(e) {
                            assert(al_comensal[0] == e);
                        } else if al_repartidor.contains(e) {
                            let j = choose|j: int|
                                0 <= j < al_repartidor.len() && al_repartidor[j] == e;
                            assert(v.repartidores.contains_key(m.direccion_conductor_f));
                        } else {
                            assert(s.tcp_enviador == e) by {
                                if i < al_repartidor.len() {
                                    assert(al_repartidor[i] == e);
                                }
                            }
                        }
                    }
                }
            }
        },
        Entrante::HandlePedido(m) => {
            match eleccion.id_coordinador {
                None => {},
                Some(c) => {
                    let cercano = choose|cercano: Option<Direccion>|
                        {
                            &&& #[trigger] v.es_repartidor_cercano(cercano)
                            &&& if c == s.addr {
                                (w, efectos) == Server::hacer_pedido_spec(
                                    v,
                                    crate::server::coordinador_server::propuesta(
                                        m.id_comensal_ht,
                                        cercano,
                                    ),
                                    ahora,
                                )
                            } else {
                                w == v && efectos == seq![
                                    Efecto::EnviarAlCoordinador(
                                        c,
                                        crate::server::coordinador_server::propuesta(
                                            m.id_comensal_ht,
                                            cercano,
                                        ),
                                    ),
                                ]
                            }
                        };
                    let p = crate::server::coordinador_server::propuesta(m.id_comensal_ht, cercano);
                    if c == s.addr {
                        lema_finales_de_propuesta(v, p, ahora, e);
                    } else {
                        lema_finales_uno(Efecto::EnviarAlCoordinador(c, p), e);
                    }
                },
            }
        },
        Entrante::RespuestaOfertaViaje(m) => {
            let comensal = m.direccion_comensal_r;
            let repartidor = s.client_addr;
            if s.espera_respuesta(v, comensal) {
                if !m.esta_aceptado {
                    lema_finales_dos(
                        Efecto::Difundir(
                            crate::server::server::cambio_repartidor(
                                repartidor,
                                v.repartidores[repartidor].posicion_repartidor,
                                None,
                                EstadoRepartidor::Active,
                            ),
                        ),
                        Efecto::ManejarPedido(HandlePedido { id_comensal_ht: comensal }),
                        e,
                    );
                } else if v.comensales.contains_key(comensal)
                    && v.comensales[comensal].enviador_comensal is Some {
                    let inicio = Linea::IniciarViajeDelivery(
                        crate::common::mensajes::IniciarViajeDelivery {
                            direccion_comensal_i: comensal,
                            direccion_conductor_i: repartidor,
                            origen_i: v.comensales[comensal].posicion_comensal,
                            destino_i: v.comensales[comensal].destino_comensal,
                        },
                    );
                    lema_finales_tres(
                        Efecto::Enviar(v.comensales[comensal].enviador_comensal->0, inicio),
                        Efecto::Enviar(s.tcp_enviador, inicio),
                        Efecto::Difundir(
                            crate::server::server::cambio_repartidor(
                                repartidor,
                                v.repartidores[repartidor].posicion_repartidor,
                                Some(comensal),
                                EstadoRepartidor::OnTrip,
                            ),
                        ),
                        e,
                    );
                }
            }
        },
        Entrante::HacerPedido(m) => {
            lema_finales_de_propuesta(v, m, ahora, e);
            lema_finales_suma(seq![ack], Server::hacer_pedido_spec(v, m, ahora).1, e);
            lema_finales_uno(ack, e);
            assert(Seq::<Linea>::empty() + finales_para(
                Server::hacer_pedido_spec(v, m, ahora).1,
                e,
            ) =~= finales_para(Server::hacer_pedido_spec(v, m, ahora).1, e));
        },
        Entrante::ActualizarComensales(m) => {},
        Entrante::ActualizarRepartidores(m) => {},
        Entrante::ActualizarRestaurantes(m) => {},
        Entrante::Autorizacion(m, pedido) => {
            if !m.esta_autorizado {
                lema_finales_de_rechazo(v, m.direccion_comensal, MotivoRechazo::SaldoInsuficiente, e);
            } else {
                let comensal = pedido.direccion_comensal_r;
                if pedido.esta_aceptado && v.comensales.contains_key(comensal) {
                    let r = choose|r: Option<crate::utils::entidades::EntidadRestaurante>|
                        {
                            &&& #[trigger] v.es_restaurante_cercano(pedido.posicion_comensal, r)
                            &&& match r {
                                None => (w, efectos) == rechazo(
                                    v,
                                    comensal,
                                    MotivoRechazo::SinRecursos,
                                ),
                                Some(x) => {
                                    &&& w == v.actualizar_comensal_ubicacion_restaurante(
                                        crate::almacenamiento::mensajes_almacenamiento::ActualizarComensalUbicacionRestaurante {
                                            nueva_ubicacion: x.posicion_restaurante,
                                            id_comensal: comensal,
                                        },
                                    )
                                    &&& efectos == match x.repartidor_sender {
                                        Some(a) => seq![
                                            Efecto::Enviar(
                                                a,
                                                Linea::RecibirPedido(
                                                    crate::common::mensajes::RecibirPedido {
                                                        direccion_comensal_o: comensal,
                                                        comida: pedido.comida,
                                                        ubicacion_comensal: pedido.posicion_comensal,
                                                    },
                                                ),
                                            ),
                                        ],
                                        None => Seq::<Efecto>::empty(),
                                    }
                                },
                            }
                        };
                    match r {
                        None => {
                            lema_finales_de_rechazo(v, comensal, MotivoRechazo::SinRecursos, e);
                        },
                        Some(x) => {
                            match x.repartidor_sender {
                                Some(a) => {
                                    lema_finales_uno(efectos[0], e);
                                    assert(efectos =~= seq![efectos[0]]);
                                },
                                None => {},
                            }
                        },
                    }
                }
            }
        },
    }
}

/// The final lines of a proposal for a writer: one refusal at most, and
/// then for a diner that is stored no longer.
proof fn lema_finales_de_propuesta(v: VistaAlmacenamiento, m: HacerPedido, ahora: Instante, e: Enviador)
    ensures
        ({
            let (w, ef) = Server::hacer_pedido_spec(v, m, ahora);
            &&& finales_para(ef, e).len() <= 1
            &&& finales_para(ef, e).len() == 1 ==> v.comensales.contains_key(m.id_comensal_mt)
                && v.comensales[m.id_comensal_mt].enviador_comensal == Some(e)
                && !w.comensales.contains_key(m.id_comensal_mt)
            &&& w.comensales.dom().subset_of(v.comensales.dom())
        }),
{
    let (w, ef) = Server::hacer_pedido_spec(v, m, ahora);
    let c = m.id_comensal_mt;
    let r = m.id_repartidor_mt;
    lema_finales_de_rechazo(v, c, MotivoRechazo::SinRepartidor, e);
    lema_finales_de_rechazo(v, c, MotivoRechazo::EnviadorNoDisponible, e);
    if v.repartidores.contains_key(r) {
        if v.repartidores[r].estado != EstadoRepartidor::Active {
            lema_finales_uno(Efecto::ManejarPedido(HandlePedido { id_comensal_ht: c }), e);
        } else {
            match v.repartidores[r].restaurante_sender {
                Some(a) => {
                    lema_finales_uno(
                        Efecto::Enviar(
                            a,
                            Linea::OfertarViaje(OfertarViaje { direccion_comensal_o: c }),
                        ),
                        e,
                    );
                },
                None => {},
            }
        }
    }
}

/// The final lines of what is done for one reaped courier: the refusal, if
/// the writer is that of the diner it held up.
proof fn lema_finales_de_ausente(a: RepartidorAusente, e: Enviador)
    ensures
        finales_para(efectos_de_ausente(a), e) == if a.enviador_comensal == Some(e) {
            seq![Linea::RechazarViaje(MotivoRechazo::RepartidorDesconectado)]
        } else {
            Seq::<Linea>::empty()
        },
{
    let uno = seq![Efecto::Difundir(baja_repartidor(a.id_repartidor))];
    let dos = match a.id_comensal {
        Some(c) => seq![Efecto::Difundir(baja_comensal(c))],
        None => Seq::<Efecto>::empty(),
    };
    let tres = match a.enviador_comensal {
        Some(x) => seq![
            Efecto::Enviar(x, Linea::RechazarViaje(MotivoRechazo::RepartidorDesconectado)),
        ],
        None => Seq::<Efecto>::empty(),
    };
    assert(efectos_de_ausente(a) == uno + dos + tres);
    lema_finales_suma(uno + dos, tres, e);
    lema_finales_suma(uno, dos, e);
    lema_finales_vacio(e);
    lema_finales_uno(uno[0], e);
    assert(uno =~= seq![uno[0]]);
    if dos.len() > 0 {
        lema_finales_uno(dos[0], e);
        assert(dos =~= seq![dos[0]]);
    }
    if tres.len() > 0 {
        lema_finales_uno(tres[0], e);
        assert(tres =~= seq![tres[0]]);
    }
    assert(Seq::<Linea>::empty() + Seq::<Linea>::empty() + finales_para(tres, e) =~= finales_para(
        tres,
        e,
    ));
}

/// Where at most one report names the writer `e`, the final lines that the
/// first `n` reports bring it are the one refusal, or none.
proof fn lema_finales_de_ausentes(s: Seq<RepartidorAusente>, n: int, e: Enviador)
    requires
        0 <= n <= s.len(),
        forall|i: int, j: int|
            0 <= i < j < s.len() ==> !((#[trigger] s[i]).enviador_comensal == Some(e) && (
            #[trigger] s[j]).enviador_comensal == Some(e)),
    ensures
        finales_para(efectos_de_ausentes(s.take(n)), e) == if avisado(s, n, e) {
            seq![Linea::RechazarViaje(MotivoRechazo::RepartidorDesconectado)]
        } else {
            Seq::<Linea>::empty()
        },
    decreases n,
{
    let t = s.take(n);
    if n == 0 {
        lema_finales_vacio(e);
    } else {
        lema_finales_de_ausentes(s, n - 1, e);
        assert(t.drop_last() =~= s.take(n - 1));
        assert(t.last() == s[n - 1]);
        let antes = efectos_de_ausentes(s.take(n - 1));
        let ultimo = efectos_de_ausente(s[n - 1]);
        lema_finales_suma(antes, ultimo, e);
        lema_finales_de_ausente(s[n - 1], e);
        if avisado(s, n - 1, e) {
            let i = choose|i: int| 0 <= i < n - 1 && (#[trigger] s[i]).enviador_comensal == Some(e);
            assert(!(s[i].enviador_comensal == Some(e) && s[n - 1].enviador_comensal == Some(e)));
            assert(avisado(s, n, e));
            assert(finales_para(antes, e) + Seq::<Linea>::empty() =~= finales_para(antes, e));
        } else if s[n - 1].enviador_comensal == Some(e) {
            assert(avisado(s, n, e));
            assert(Seq::<Linea>::empty() + finales_para(ultimo, e) =~= finales_para(ultimo, e));
        } else {
            assert(!avisado(s, n, e)) by {
                if avisado(s, n, e) {
                    let i = choose|i: int|
                        0 <= i < n && (#[trigger] s[i]).enviador_comensal == Some(e);
                    assert(i < n - 1);
                    assert(avisado(s, n - 1, e));
                }
            }
            assert(finales_para(antes, e) + Seq::<Linea>::empty() =~= finales_para(antes, e));
        }
    }
}

/// A scan for stalled couriers writes to the writer of a diner at most one
/// line that ends an order, and a diner who is written one is stored no
/// longer; a diner that is not stored is written none and stays out. This
/// holds while no diner has two couriers and the writer serves that diner
/// alone.
pub proof fn ley_un_final_por_escaneo(
    v: VistaAlmacenamiento,
    ahora: Instante,
    informes: Seq<RepartidorAusente>,
    e: Enviador,
    d: Direccion,
)
    requires
        v.informa(ahora, informes),
        v.asignaciones_unicas(),
        solo_de(v, e, d),
    ensures
        ({
            let finales = finales_para(efectos_de_ausentes(informes), e);
            let w = v.borrar_repartidores_ausentes(ahora);
            &&& finales.len() <= 1
            &&& finales.len() == 1 ==> !w.comensales.contains_key(d)
            &&& !v.comensales.contains_key(d) ==> finales.len() == 0 && !w.comensales.contains_key(
                d,
            )
        }),
{
    ley_reaper_un_aviso(v, ahora, informes);
    // A report that names the writer is that of a courier that held up `d`.
    assert forall|i: int|
        0 <= i < informes.len() && (#[trigger] informes[i]).enviador_comensal == Some(
            e,
        ) implies informes[i].id_comensal == Some(d) && v.comensales.contains_key(d)
        && v.comensales_de_ausentes(ahora).contains(d) by {
        let r = informes[i].id_repartidor;
        assert(v.ausentes(ahora).contains(r));
        assert(informes[i] == v.informe_de_ausente(r));
        let c = informes[i].id_comensal->0;
        assert(v.comensales.contains_key(c) && v.comensales[c].enviador_comensal == Some(e));
        assert(v.comensales_de_ausentes(ahora).contains(c));
    }
    lema_finales_de_ausentes(informes, informes.len() as int, e);
    assert(informes.take(informes.len() as int) =~= informes);
    if finales_para(efectos_de_ausentes(informes), e).len() > 0 {
        assert(avisado(informes, informes.len() as int, e));
    }
}

/// One step of a replica that may write to clients: a message that the hub
/// handles for a session, or a scan for stalled couriers.
pub enum Paso {
    /// The session handles a message, on a replica whose election state
    /// is `eleccion`; `origen` is the point drawn for it and `ahora` the
    /// time at which it came in.
    Mensaje {
        sesion: Server,
        eleccion: EleccionCoordinador,
        msg: Entrante,
        origen: Coordenadas,
        ahora: Instante,
    },
    /// The scan at `ahora`, which reports `informes`.
    Escaneo { ahora: Instante, informes: Seq<RepartidorAusente> },
}

/// The step `p` takes the store from `v` to `w` and asks for `efectos`.
pub open spec fn da_paso(v: VistaAlmacenamiento, p: Paso, w: VistaAlmacenamiento, efectos: Seq<Efecto>) -> bool {
    match p {
        Paso::Mensaje { sesion, eleccion, msg, origen, ahora } => sesion.handle_post(
            v,
            &eleccion,
            msg,
            origen,
            ahora,
            w,
            efectos,
        ),
        Paso::Escaneo { ahora, informes } => {
            &&& v.informa(ahora, informes)
            &&& w == v.borrar_repartidores_ausentes(ahora)
            &&& efectos == efectos_de_ausentes(informes)
        },
    }
}

/// The step keeps to the rules under which a writer can be told from a
/// diner: the writer `e` serves the diner `d` alone, a session keeps to
/// its own, and a scan finds no diner with two couriers.
pub open spec fn en_regla(v: VistaAlmacenamiento, p: Paso, e: Enviador, d: Direccion) -> bool {
    &&& solo_de(v, e, d)
    &&& match p {
        Paso::Mensaje { sesion, msg, .. } => sesion_propia(sesion, msg, e, d),
        Paso::Escaneo { .. } => v.asignaciones_unicas(),
    }
}

/// The step enters the diner `d` into the store.
pub open spec fn entra_en(p: Paso, d: Direccion) -> bool {
    match p {
        Paso::Mensaje { sesion, msg, .. } => entra(sesion, msg, d),
        Paso::Escaneo { .. } => false,
    }
}

/// A run of steps on one replica: the store before the first step and
/// after each, the steps, and what each step asks for.
pub struct Conversacion {
    pub estados: Seq<VistaAlmacenamiento>,
    pub pasos: Seq<Paso>,
    pub efectos: Seq<Seq<Efecto>>,
}

impl Conversacion {
    /// Every step takes the store from its state to the next and asks for
    /// its effects.
    pub open spec fn valida(self) -> bool {
        &&& self.estados.len() == self.pasos.len() + 1
        &&& self.efectos.len() == self.pasos.len()
        &&& forall|i: int|
            0 <= i < self.pasos.len() ==> da_paso(
                self.estados[i],
                #[trigger] self.pasos[i],
                self.estados[i + 1],
                self.efectos[i],
            )
    }

    /// What the first `n` steps ask for, in their order.
    pub open spec fn efectos_hasta(self, n: int) -> Seq<Efecto>
        decreases n,
    {
        if n <= 0 || n > self.efectos.len() {
            Seq::empty()
        } else {
            self.efectos_hasta(n - 1) + self.efectos[n - 1]
        }
    }

    /// Everything that the run asks for, in its order.
    pub open spec fn todos_los_efectos(self) -> Seq<Efecto> {
        self.efectos_hasta(self.pasos.len() as int)
    }

    /// The store at the end of the run.
    pub open spec fn estado_final(self) -> VistaAlmacenamiento {
        self.estados[self.pasos.len() as int]
    }

    /// The run tells an order of the diner `d`, whose writer is `e`, from
    /// all else: every step keeps to the rules, and no step after the
    /// first enters `d` into the store again.
    pub open spec fn de_un_pedido(self, e: Enviador, d: Direccion) -> bool {
        &&& forall|i: int|
            0 <= i < self.pasos.len() ==> en_regla(self.estados[i], #[trigger] self.pasos[i], e, d)
        &&& forall|i: int| 1 <= i < self.pasos.len() ==> !entra_en(#[trigger] self.pasos[i], d)
    }
}

proof fn lema_un_final_hasta(c: Conversacion, e: Enviador, d: Direccion, n: int)
    requires
        c.valida(),
        c.de_un_pedido(e, d),
        0 <= n <= c.pasos.len(),
    ensures
        finales_para(c.efectos_hasta(n), e).len() <= 1,
        finales_para(c.efectos_hasta(n), e).len() == 1 ==> n >= 1 && !c.estados[n].comensales.contains_key(
            d,
        ),
    decreases n,
{
    if n == 0 {
        lema_finales_vacio(e);
    } else {
        lema_un_final_hasta(c, e, d, n - 1);
        let p = c.pasos[n - 1];
        let v = c.estados[n - 1];
        let w = c.estados[n];
        let ef = c.efectos[n - 1];
        assert(da_paso(v, p, w, ef));
        assert(en_regla(v, p, e, d));
        lema_finales_suma(c.efectos_hasta(n - 1), ef, e);
        if n - 1 >= 1 {
            assert(!entra_en(p, d));
        }
        match p {
            Paso::Mensaje { sesion, eleccion, msg, origen, ahora } => {
                ley_un_final_por_mensaje(sesion, v, &eleccion, msg, origen, ahora, w, ef, e, d);
            },
            Paso::Escaneo { ahora, informes } => {
                ley_un_final_por_escaneo(v, ahora, informes, e, d);
            },
        }
    }
}

/// An order has one end. Take any run of steps on a replica, messages
/// handled and scans in any order, in which the diner `d` is entered into
/// the store by the first step at most, as by its order. Then the lines
/// that end an order, refusals and acknowledgements of a delivery taken
/// together, that the whole run writes to the writer of `d` are one at
/// most; and once that line is written `d` is stored no longer. This
/// holds while the writer serves `d` alone, sessions keep to their own,
/// and no diner has two couriers when a scan comes.
pub proof fn ley_un_final_por_pedido(c: Conversacion, e: Enviador, d: Direccion)
    requires
        c.valida(),
        c.de_un_pedido(e, d),
    ensures
        finales_para(c.todos_los_efectos(), e).len() <= 1,
        finales_para(c.todos_los_efectos(), e).len() == 1 ==> !c.estado_final().comensales.contains_key(
            d,
        ),
        forall|n: int|
            0 <= n <= c.pasos.len() && finales_para(#[trigger] c.efectos_hasta(n), e).len() == 1
                ==> !c.estados[n].comensales.contains_key(d),
{
    lema_un_final_hasta(c, e, d, c.pasos.len() as int);
    assert forall|n: int|
        0 <= n <= c.pasos.len() && finales_para(#[trigger] c.efectos_hasta(n), e).len()
            == 1 implies !c.estados[n].comensales.contains_key(d) by {
        lema_un_final_hasta(c, e, d, n);
    }
}

} // verus!
