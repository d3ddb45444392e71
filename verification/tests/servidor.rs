use reparto::almacenamiento::almacenamiento::Almacenamiento;
use reparto::almacenamiento::mensajes_almacenamiento::{
    Finalizado, ObtenerComensal, ObtenerRepartidor,
};
use reparto::common::mensajes::{
    Autorizacion, FinalizarViaje, IniciarViajeDelivery, MensajeIdentidad, OfertarViaje,
    PedidoAlRestaurante, Posicion, QuienEsCoordinador, RecibirPedido, RespuestaOfertaViaje,
    SolicitarPedido, SolicitarRepartidor,
};
use reparto::coordinador::coordinador::Coordinador;
use reparto::coordinador::mensajes_coordinador::{
    AgregarServidorADiccionario,
    Accion, ActualizarComensales, ActualizarRepartidores, ActualizarRestaurantes,
    ConectarNuevoServidor, HandlePedido,
};
use reparto::direccion::{Coordenadas, Direccion};
use reparto::eleccion::eleccion::{EleccionCoordinador, PasoEleccion, RespuestaConsulta};
use reparto::eleccion::mensajes_eleccion::{
    MensajeCoordinador, MensajeEleccion, MensajePing, PingCoordinador,
};
use reparto::eleccion::recorrido::Intento;
use reparto::server::coordinador_server::{
    enviar_viaje_a_coordinador, respuesta_de_coordinador, respuesta_de_viaje, tras_enviar_viaje,
    PasoViaje, ResultadoEnvio,
};
use reparto::server::efectos::{Delta, Efecto, Linea, MotivoRechazo};
use reparto::server::ping::{respuesta_de_consulta, WhoIsCoordinator};
use reparto::server::reaper::matar_repartidores_ausentes;
use reparto::server::server::{
    clasificar_linea, enmarcar, formas_conocidas, linea_control, primera_forma, Entrante, Forma,
    LineaControl, Server,
};
use reparto::server::server_coordinador::HacerPedido;
use reparto::utils::acciones_gateway::obtener_respuesta_pago;
use reparto::utils::entidades::EstadoRepartidor;
use reparto::utils::errores_servidor::ServidorError;

const ENVIADOR_REPARTIDOR: u64 = 10;
const ENVIADOR_RESTAURANTE: u64 = 20;
const ENVIADOR_COMENSAL: u64 = 30;

fn dir(puerto: u16) -> Direccion {
    Direccion { ip: 0x7F00_0001, puerto }
}

fn en(x: i32, y: i32) -> Coordenadas {
    Coordenadas { x, y }
}

fn lider() -> EleccionCoordinador {
    let mut e = EleccionCoordinador::new(dir(8080), vec![dir(8080), dir(8081), dir(8082)]);
    e.recibir_mensaje_coordinador(MensajeCoordinador { coordinador: dir(8080) });
    e
}

fn seguidor() -> EleccionCoordinador {
    let mut e = EleccionCoordinador::new(dir(8081), vec![dir(8080), dir(8081), dir(8082)]);
    e.recibir_mensaje_coordinador(MensajeCoordinador { coordinador: dir(8080) });
    e
}

fn sesion_repartidor() -> Server {
    Server::new(dir(40001), dir(8080), ENVIADOR_REPARTIDOR)
}

fn sesion_restaurante() -> Server {
    Server::new(dir(40002), dir(8080), ENVIADOR_RESTAURANTE)
}

fn sesion_comensal() -> Server {
    Server::new(dir(40003), dir(8080), ENVIADOR_COMENSAL)
}

fn pizza() -> SolicitarPedido {
    SolicitarPedido { comida: "Pizza".to_string(), destino: en(3, 3) }
}

fn baja_comensal(d: Direccion) -> Efecto {
    Efecto::Difundir(Delta::Comensales(ActualizarComensales {
        accion: Accion::Eliminar,
        comensal: d,
        origen: en(0, 0),
        destino: en(0, 0),
    }))
}

/// A replica with one courier at (1,1) and one restaurant at (2,2).
fn replica_con_recursos() -> (EleccionCoordinador, Almacenamiento) {
    let eleccion = lider();
    let mut alm = Almacenamiento::start().unwrap();
    let e = sesion_repartidor().posicion(Posicion { posicion: en(1, 1) }, &eleccion, &mut alm, 0);
    assert_eq!(
        e,
        vec![Efecto::Difundir(Delta::Repartidores(ActualizarRepartidores {
            accion: Accion::Insertar,
            repartidor: dir(40001),
            posicion: en(1, 1),
            id_comensal_actual: None,
            status: EstadoRepartidor::Active,
        }))]
    );
    let e = sesion_restaurante().mensaje_identidad(
        MensajeIdentidad { ubicacion: en(2, 2), soy_repartidor: false },
        &eleccion,
        &mut alm,
        0,
    );
    assert_eq!(
        e,
        vec![Efecto::Difundir(Delta::Restaurantes(ActualizarRestaurantes {
            accion: Accion::Insertar,
            restaurante: dir(40002),
            posicion: en(2, 2),
            id_comensal_actual: None,
            status: EstadoRepartidor::Active,
        }))]
    );
    (eleccion, alm)
}

/// Brings an order up to the point where the courier has been offered it.
fn hasta_la_oferta(eleccion: &EleccionCoordinador, alm: &mut Almacenamiento, ahora: u64) {
    let comensal = sesion_comensal();
    let e = comensal.solicitar_pedido(pizza(), en(9, 9), eleccion, alm);
    let pedido = PedidoAlRestaurante {
        direccion_comensal_r: dir(40003),
        esta_aceptado: true,
        comida: "Pizza".to_string(),
        posicion_comensal: en(3, 3),
    };
    assert_eq!(
        e,
        vec![
            Efecto::Difundir(Delta::Comensales(ActualizarComensales {
                accion: Accion::Insertar,
                comensal: dir(40003),
                origen: en(9, 9),
                destino: en(3, 3),
            })),
            Efecto::ValidarPago(pedido.clone()),
        ]
    );
    let e = comensal.autorizacion(
        Autorizacion { direccion_comensal: dir(40003), esta_autorizado: true },
        pedido,
        alm,
    );
    assert_eq!(
        e,
        vec![Efecto::Enviar(
            ENVIADOR_RESTAURANTE,
            Linea::RecibirPedido(RecibirPedido {
                direccion_comensal_o: dir(40003),
                comida: "Pizza".to_string(),
                ubicacion_comensal: en(3, 3),
            })
        )]
    );
    let e = sesion_restaurante().solicitar_repartidor(
        SolicitarRepartidor {
            comida: "Pizza".to_string(),
            origen: en(2, 2),
            destino: en(3, 3),
            pedido_aceptado: true,
            direccion_comensal: dir(40003),
        },
        eleccion,
        alm,
    );
    assert_eq!(
        e,
        vec![Efecto::ManejarPedido(HandlePedido { id_comensal_ht: dir(40003) })]
    );
    // No peer is linked: the leader does the search itself and offers at once.
    let mut coordinador = Coordinador::new(dir(8080), vec![dir(8080), dir(8081), dir(8082)]);
    let e = sesion_restaurante().manejar_pedido(
        HandlePedido { id_comensal_ht: dir(40003) },
        &mut coordinador,
        eleccion,
        alm,
        ahora,
    );
    assert_eq!(
        e,
        vec![Efecto::Enviar(
            ENVIADOR_REPARTIDOR,
            Linea::OfertarViaje(OfertarViaje { direccion_comensal_o: dir(40003) })
        )]
    );
    let r = alm.obtener_repartidor(ObtenerRepartidor { id: dir(40001) }).unwrap();
    assert_eq!(r.estado, EstadoRepartidor::Waiting);
    assert_eq!(r.id_actual_comensal, Some(dir(40003)));
    assert_eq!(r.time_stamp, ahora);
}

#[test]
fn camino_feliz_de_un_pedido() {
    let (eleccion, mut alm) = replica_con_recursos();
    hasta_la_oferta(&eleccion, &mut alm, 100);

    let inicio = Linea::IniciarViajeDelivery(IniciarViajeDelivery {
        direccion_comensal_i: dir(40003),
        direccion_conductor_i: dir(40001),
        origen_i: en(2, 2),
        destino_i: en(3, 3),
    });
    let e = sesion_repartidor().respuesta_oferta_viaje(
        RespuestaOfertaViaje { direccion_comensal_r: dir(40003), esta_aceptado: true },
        &mut alm,
        200,
    );
    assert_eq!(
        e,
        vec![
            Efecto::Enviar(ENVIADOR_COMENSAL, inicio),
            Efecto::Enviar(
                ENVIADOR_REPARTIDOR,
                Linea::IniciarViajeDelivery(IniciarViajeDelivery {
                    direccion_comensal_i: dir(40003),
                    direccion_conductor_i: dir(40001),
                    origen_i: en(2, 2),
                    destino_i: en(3, 3),
                })
            ),
            Efecto::Difundir(Delta::Repartidores(ActualizarRepartidores {
                accion: Accion::Actualizar,
                repartidor: dir(40001),
                posicion: en(1, 1),
                id_comensal_actual: Some(dir(40003)),
                status: EstadoRepartidor::OnTrip,
            })),
        ]
    );

    let fin = FinalizarViaje {
        direccion_comensal_f: dir(40003),
        direccion_conductor_f: dir(40001),
        pos_destino: en(3, 3),
    };
    let e = sesion_repartidor().finalizar_viaje(fin, &mut alm, 300);
    assert_eq!(
        e,
        vec![
            Efecto::Cobrar(dir(40003)),
            Efecto::Enviar(ENVIADOR_COMENSAL, Linea::AckFinal),
            Efecto::Enviar(ENVIADOR_REPARTIDOR, Linea::AckFinal),
            Efecto::Difundir(Delta::Repartidores(ActualizarRepartidores {
                accion: Accion::Actualizar,
                repartidor: dir(40001),
                posicion: en(3, 3),
                id_comensal_actual: None,
                status: EstadoRepartidor::Active,
            })),
            baja_comensal(dir(40003)),
        ]
    );
    assert!(alm.finalizado(Finalizado { id_comensal: dir(40003) }));
    assert_eq!(alm.cantidades(), (0, 1, 1));
    let r = alm.obtener_repartidor(ObtenerRepartidor { id: dir(40001) }).unwrap();
    assert_eq!(r.estado, EstadoRepartidor::Active);
    assert_eq!(r.posicion_repartidor, en(3, 3));

    // The diner's own report comes late: the delivery is acknowledged once only.
    let e = sesion_comensal().finalizar_viaje(fin, &mut alm, 400);
    assert_eq!(e, vec![]);
}

#[test]
fn lider_caido_a_mitad_del_pedido() {
    let (eleccion, mut alm) = replica_con_recursos();
    hasta_la_oferta(&eleccion, &mut alm, 100);

    // The follower on 8081 has taken in the leader's deltas.
    let enlace = Server::new(dir(8080), dir(8081), 500);
    let mut replicado = Almacenamiento::start().unwrap();
    for delta in [
        Delta::Repartidores(ActualizarRepartidores {
            accion: Accion::Insertar,
            repartidor: dir(40001),
            posicion: en(1, 1),
            id_comensal_actual: None,
            status: EstadoRepartidor::Active,
        }),
        Delta::Comensales(ActualizarComensales {
            accion: Accion::Insertar,
            comensal: dir(40003),
            origen: en(2, 2),
            destino: en(3, 3),
        }),
    ] {
        enlace.aplicar_delta(delta, &mut replicado, 150);
    }

    // 8080 dies. 8081 notices, and the election goes round the survivors.
    let peers = vec![dir(8080), dir(8081), dir(8082)];
    let anillo = reparto::eleccion::anillo::Anillo::new(8080, 8082).unwrap();
    let mut r81 = EleccionCoordinador::con_anillo(dir(8081), peers.clone(), anillo);
    let mut r82 = EleccionCoordinador::con_anillo(dir(8082), peers.clone(), anillo);
    r81.recibir_mensaje_coordinador(MensajeCoordinador { coordinador: dir(8080) });
    r82.recibir_mensaje_coordinador(MensajeCoordinador { coordinador: dir(8080) });
    let (sonda, mut ping) = r81.ping_coordinador(PingCoordinador).unwrap();
    assert_eq!(sonda, MensajePing { id_enviador: dir(8081) });
    for _ in 0..3 {
        assert_eq!(ping.objetivo(), Some(dir(8080)));
        ping.registrar_fallo();
    }
    assert_eq!(ping.objetivo(), None);
    let mensaje = r81.coordinador_caido().unwrap();
    assert_eq!(r81.enviar_mensaje_eleccion().objetivo(), Some(dir(8082)));
    let mensaje = match r82.handle_election(mensaje) {
        PasoEleccion::Reenviar(m) => m,
        otro => panic!("se esperaba reenviar y fue {:?}", otro),
    };
    let mut envio = r82.enviar_mensaje_eleccion();
    for _ in 0..3 {
        assert_eq!(envio.objetivo(), Some(dir(8080)));
        envio.registrar_fallo();
    }
    assert_eq!(envio.objetivo(), Some(dir(8081)));
    let anuncio = match r81.handle_election(mensaje) {
        PasoEleccion::Proclamar(c) => c,
        otro => panic!("se esperaba proclamar y fue {:?}", otro),
    };
    assert_eq!(anuncio, MensajeCoordinador { coordinador: dir(8081) });
    assert!(r81.es_coordinador());
    assert!(!r82.recibir_mensaje_coordinador(anuncio));
    assert_eq!(r82.id_coordinador, Some(dir(8081)));

    // The diner reconnects to the new leader and reports the arrival again.
    let reconectado = Server::new(dir(40077), dir(8081), 31);
    let fin = FinalizarViaje {
        direccion_comensal_f: dir(40003),
        direccion_conductor_f: dir(40001),
        pos_destino: en(3, 3),
    };
    let e = reconectado.finalizar_viaje(fin, &mut replicado, 900);
    let acuses: Vec<&Efecto> = e
        .iter()
        .filter(|x| matches!(x, Efecto::Enviar(31, Linea::AckFinal)))
        .collect();
    assert_eq!(acuses.len(), 1);
    assert_eq!(e[0], Efecto::Cobrar(dir(40003)));
    assert!(replicado.finalizado(Finalizado { id_comensal: dir(40003) }));
    let e = reconectado.finalizar_viaje(fin, &mut replicado, 950);
    assert_eq!(e, vec![]);
}

#[test]
fn repartidor_que_no_contesta_es_borrado_y_el_comensal_avisado() {
    let (eleccion, mut alm) = replica_con_recursos();
    hasta_la_oferta(&eleccion, &mut alm, 1000);

    assert_eq!(matar_repartidores_ausentes(&mut alm, 4000), vec![]);
    let e = matar_repartidores_ausentes(&mut alm, 4001);
    assert_eq!(
        e,
        vec![
            Efecto::Difundir(Delta::Repartidores(ActualizarRepartidores {
                accion: Accion::Eliminar,
                repartidor: dir(40001),
                posicion: en(0, 0),
                id_comensal_actual: None,
                status: EstadoRepartidor::Active,
            })),
            baja_comensal(dir(40003)),
            Efecto::Enviar(
                ENVIADOR_COMENSAL,
                Linea::RechazarViaje(MotivoRechazo::RepartidorDesconectado)
            ),
        ]
    );
    assert_eq!(
        MotivoRechazo::RepartidorDesconectado.mensaje().respuesta,
        "El repartidor esta desconectado, intente nuevamente"
    );
    assert_eq!(alm.cantidades(), (0, 0, 1));

    // An answer that comes after the reaping starts nothing.
    let e = sesion_repartidor().respuesta_oferta_viaje(
        RespuestaOfertaViaje { direccion_comensal_r: dir(40003), esta_aceptado: true },
        &mut alm,
        5000,
    );
    assert_eq!(e, vec![]);
}

#[test]
fn pedido_sin_repartidores_se_rechaza_sin_consultar_al_gateway() {
    let eleccion = lider();
    let mut alm = Almacenamiento::start().unwrap();
    sesion_restaurante().mensaje_identidad(
        MensajeIdentidad { ubicacion: en(2, 2), soy_repartidor: false },
        &eleccion,
        &mut alm,
        0,
    );
    let e = sesion_comensal().solicitar_pedido(pizza(), en(9, 9), &eleccion, &mut alm);
    assert_eq!(
        e,
        vec![
            Efecto::Enviar(
                ENVIADOR_COMENSAL,
                Linea::RechazarViaje(MotivoRechazo::SinRecursos)
            ),
            baja_comensal(dir(40003)),
        ]
    );
    assert!(!e.iter().any(|x| matches!(x, Efecto::ValidarPago(_) | Efecto::Cobrar(_))));
    assert!(alm.finalizado(Finalizado { id_comensal: dir(40003) }));
}

#[test]
fn pedido_sin_restaurantes_se_rechaza_de_inmediato() {
    let eleccion = lider();
    let mut alm = Almacenamiento::start().unwrap();
    sesion_repartidor().posicion(Posicion { posicion: en(1, 1) }, &eleccion, &mut alm, 0);
    let e = sesion_comensal().solicitar_pedido(pizza(), en(9, 9), &eleccion, &mut alm);
    assert_eq!(
        e[0],
        Efecto::Enviar(
            ENVIADOR_COMENSAL,
            Linea::RechazarViaje(MotivoRechazo::SinRecursos)
        )
    );
    assert_eq!(e.len(), 2);
    assert_eq!(
        MotivoRechazo::SinRecursos.mensaje().respuesta,
        "Viaje rechazado por falta de repartidores o restaurantes"
    );
    assert_ne!(MotivoRechazo::SinRecursos.texto(), MotivoRechazo::SaldoInsuficiente.texto());
}

#[test]
fn pago_no_autorizado_rechaza_sin_tocar_restaurante_ni_repartidor() {
    let (eleccion, mut alm) = replica_con_recursos();
    let comensal = sesion_comensal();
    comensal.solicitar_pedido(pizza(), en(9, 9), &eleccion, &mut alm);
    let e = comensal.autorizacion(
        Autorizacion { direccion_comensal: dir(40003), esta_autorizado: false },
        PedidoAlRestaurante {
            direccion_comensal_r: dir(40003),
            esta_aceptado: true,
            comida: "Pizza".to_string(),
            posicion_comensal: en(3, 3),
        },
        &mut alm,
    );
    assert_eq!(
        e,
        vec![
            Efecto::Enviar(
                ENVIADOR_COMENSAL,
                Linea::RechazarViaje(MotivoRechazo::SaldoInsuficiente)
            ),
            baja_comensal(dir(40003)),
        ]
    );
    assert_eq!(
        MotivoRechazo::SaldoInsuficiente.mensaje().respuesta,
        "Viaje rechazado por saldo insuficiente"
    );
    let r = alm.obtener_repartidor(ObtenerRepartidor { id: dir(40001) }).unwrap();
    assert_eq!(r.estado, EstadoRepartidor::Active);
    assert_eq!(alm.cantidades(), (0, 1, 1));
}

#[test]
fn gateway_inalcanzable_cuenta_como_pago_rechazado() {
    let (eleccion, mut alm) = replica_con_recursos();
    let comensal = sesion_comensal();
    comensal.solicitar_pedido(pizza(), en(9, 9), &eleccion, &mut alm);
    let autorizado = obtener_respuesta_pago(None);
    assert!(!autorizado);
    let e = comensal.autorizacion(
        Autorizacion { direccion_comensal: dir(40003), esta_autorizado: autorizado },
        PedidoAlRestaurante {
            direccion_comensal_r: dir(40003),
            esta_aceptado: true,
            comida: "Pizza".to_string(),
            posicion_comensal: en(3, 3),
        },
        &mut alm,
    );
    assert_eq!(
        e[0],
        Efecto::Enviar(
            ENVIADOR_COMENSAL,
            Linea::RechazarViaje(MotivoRechazo::SaldoInsuficiente)
        )
    );
}

#[test]
fn restaurante_rechaza_y_el_repartidor_queda_como_estaba() {
    let (eleccion, mut alm) = replica_con_recursos();
    let comensal = sesion_comensal();
    comensal.solicitar_pedido(pizza(), en(9, 9), &eleccion, &mut alm);
    let antes = alm.obtener_repartidor(ObtenerRepartidor { id: dir(40001) });
    let e = sesion_restaurante().solicitar_repartidor(
        SolicitarRepartidor {
            comida: "Pizza".to_string(),
            origen: en(2, 2),
            destino: en(3, 3),
            pedido_aceptado: false,
            direccion_comensal: dir(40003),
        },
        &eleccion,
        &mut alm,
    );
    assert_eq!(
        e,
        vec![
            Efecto::Enviar(ENVIADOR_COMENSAL, Linea::RechazarViaje(MotivoRechazo::Restaurante)),
            baja_comensal(dir(40003)),
        ]
    );
    assert_eq!(
        MotivoRechazo::Restaurante.mensaje().respuesta,
        "Viaje rechazado por restaurante"
    );
    assert_eq!(alm.obtener_repartidor(ObtenerRepartidor { id: dir(40001) }), antes);
    // The verdict that the restaurant also sends as an answer to the offer is dropped.
    let e = sesion_restaurante().respuesta_oferta_viaje(
        RespuestaOfertaViaje { direccion_comensal_r: dir(40003), esta_aceptado: false },
        &mut alm,
        10,
    );
    assert_eq!(e, vec![]);
}

#[test]
fn repartidor_rechaza_queda_libre_y_se_busca_otro() {
    let (eleccion, mut alm) = replica_con_recursos();
    hasta_la_oferta(&eleccion, &mut alm, 100);
    let e = sesion_repartidor().respuesta_oferta_viaje(
        RespuestaOfertaViaje { direccion_comensal_r: dir(40003), esta_aceptado: false },
        &mut alm,
        200,
    );
    assert_eq!(
        e,
        vec![
            Efecto::Difundir(Delta::Repartidores(ActualizarRepartidores {
                accion: Accion::Actualizar,
                repartidor: dir(40001),
                posicion: en(1, 1),
                id_comensal_actual: None,
                status: EstadoRepartidor::Active,
            })),
            Efecto::ManejarPedido(HandlePedido { id_comensal_ht: dir(40003) }),
        ]
    );
    let r = alm.obtener_repartidor(ObtenerRepartidor { id: dir(40001) }).unwrap();
    assert_eq!(r.estado, EstadoRepartidor::Active);
    assert_eq!(r.id_actual_comensal, None);
    // A second answer to the same offer is dropped.
    let e = sesion_repartidor().respuesta_oferta_viaje(
        RespuestaOfertaViaje { direccion_comensal_r: dir(40003), esta_aceptado: true },
        &mut alm,
        300,
    );
    assert_eq!(e, vec![]);
}

#[test]
fn propuesta_para_repartidor_ocupado_vuelve_al_coordinador() {
    let (eleccion, mut alm) = replica_con_recursos();
    Server::new(dir(40011), dir(8080), 11).posicion(
        Posicion { posicion: en(5, 5) },
        &eleccion,
        &mut alm,
        0,
    );
    hasta_la_oferta(&eleccion, &mut alm, 100);
    let ocupado = alm.obtener_repartidor(ObtenerRepartidor { id: dir(40001) });
    // Another diner; a follower still proposes the courier that waits by now.
    let otro = Server::new(dir(40004), dir(8080), 40);
    otro.solicitar_pedido(pizza(), en(9, 9), &eleccion, &mut alm);
    let e = otro.hacer_pedido(
        HacerPedido { id_comensal_mt: dir(40004), id_repartidor_mt: dir(40001) },
        &mut alm,
        200,
    );
    assert_eq!(
        e,
        vec![Efecto::ManejarPedido(HandlePedido { id_comensal_ht: dir(40004) })]
    );
    assert_eq!(alm.obtener_repartidor(ObtenerRepartidor { id: dir(40001) }), ocupado);
    // The search that follows finds the courier that is free.
    let mut coordinador = Coordinador::new(dir(8080), vec![dir(8080)]);
    let e = otro.manejar_pedido(
        HandlePedido { id_comensal_ht: dir(40004) },
        &mut coordinador,
        &eleccion,
        &mut alm,
        300,
    );
    assert_eq!(
        e,
        vec![Efecto::Enviar(
            11,
            Linea::OfertarViaje(OfertarViaje { direccion_comensal_o: dir(40004) })
        )]
    );
    let r = alm.obtener_repartidor(ObtenerRepartidor { id: dir(40011) }).unwrap();
    assert_eq!(r.estado, EstadoRepartidor::Waiting);
    assert_eq!(r.id_actual_comensal, Some(dir(40004)));
    // The same holds for a courier that is on its trip.
    sesion_repartidor().respuesta_oferta_viaje(
        RespuestaOfertaViaje { direccion_comensal_r: dir(40003), esta_aceptado: true },
        &mut alm,
        400,
    );
    let e = otro.hacer_pedido(
        HacerPedido { id_comensal_mt: dir(40004), id_repartidor_mt: dir(40001) },
        &mut alm,
        500,
    );
    assert_eq!(
        e,
        vec![Efecto::ManejarPedido(HandlePedido { id_comensal_ht: dir(40004) })]
    );
}

#[test]
fn la_busqueda_se_delega_al_peer_de_turno() {
    let (eleccion, mut alm) = replica_con_recursos();
    sesion_comensal().solicitar_pedido(pizza(), en(9, 9), &eleccion, &mut alm);
    let mut coordinador = Coordinador::new(dir(8080), vec![dir(8080), dir(8081), dir(8082)]);
    coordinador.agregar_servidor_a_diccionario(
        AgregarServidorADiccionario { serv_address: dir(8082), serv_enviador: 82 },
        0,
    );
    let pedido = HandlePedido { id_comensal_ht: dir(40003) };
    let e = sesion_restaurante().manejar_pedido(pedido, &mut coordinador, &eleccion, &mut alm, 100);
    assert_eq!(e, vec![Efecto::Enviar(82, Linea::HandlePedido(pedido))]);
    let r = alm.obtener_repartidor(ObtenerRepartidor { id: dir(40001) }).unwrap();
    assert_eq!(r.estado, EstadoRepartidor::Active);
    // Once the link is too old, the leader searches itself.
    let e = sesion_restaurante().manejar_pedido(pedido, &mut coordinador, &eleccion, &mut alm, 5000);
    assert_eq!(
        e,
        vec![Efecto::Enviar(
            ENVIADOR_REPARTIDOR,
            Linea::OfertarViaje(OfertarViaje { direccion_comensal_o: dir(40003) })
        )]
    );
}

#[test]
fn propuesta_para_repartidor_desconocido_rechaza_al_comensal() {
    let (eleccion, mut alm) = replica_con_recursos();
    sesion_comensal().solicitar_pedido(pizza(), en(9, 9), &eleccion, &mut alm);
    let e = sesion_comensal().hacer_pedido(
        HacerPedido { id_comensal_mt: dir(40003), id_repartidor_mt: dir(49999) },
        &mut alm,
        10,
    );
    assert_eq!(
        e,
        vec![
            Efecto::Enviar(ENVIADOR_COMENSAL, Linea::RechazarViaje(MotivoRechazo::SinRepartidor)),
            baja_comensal(dir(40003)),
        ]
    );
    // The courier that is free was not touched.
    let r = alm.obtener_repartidor(ObtenerRepartidor { id: dir(40001) }).unwrap();
    assert_eq!(r.estado, EstadoRepartidor::Active);
}

#[test]
fn propuesta_sin_repartidor_libre_rechaza_al_comensal() {
    let (eleccion, mut alm) = replica_con_recursos();
    hasta_la_oferta(&eleccion, &mut alm, 100);
    let otro = Server::new(dir(40004), dir(8080), 40);
    otro.solicitar_pedido(pizza(), en(9, 9), &eleccion, &mut alm);
    let e = otro.hacer_pedido(
        HacerPedido { id_comensal_mt: dir(40004), id_repartidor_mt: Direccion::nula() },
        &mut alm,
        200,
    );
    assert_eq!(
        e,
        vec![
            Efecto::Enviar(40, Linea::RechazarViaje(MotivoRechazo::SinRepartidor)),
            baja_comensal(dir(40004)),
        ]
    );
    assert_eq!(
        MotivoRechazo::SinRepartidor.texto(),
        "Ningun repartidor esta disponible ahora."
    );
}

#[test]
fn propuesta_para_repartidor_sin_enviador_rechaza_al_comensal() {
    let eleccion = lider();
    let mut alm = Almacenamiento::start().unwrap();
    // A courier that only a delta told of, and that this delta's session cannot reach.
    alm.insertar_repartidor(
        reparto::almacenamiento::mensajes_almacenamiento::InsertarRepartidor {
            id: dir(40001),
            posicion_restaurante: en(1, 1),
            id_comensal_actual: None,
            enviador_repartidor: None,
            estado: EstadoRepartidor::Active,
            time_stamp: 0,
        },
    );
    sesion_restaurante().mensaje_identidad(
        MensajeIdentidad { ubicacion: en(2, 2), soy_repartidor: false },
        &eleccion,
        &mut alm,
        0,
    );
    sesion_comensal().solicitar_pedido(pizza(), en(9, 9), &eleccion, &mut alm);
    let e = sesion_comensal().hacer_pedido(
        HacerPedido { id_comensal_mt: dir(40003), id_repartidor_mt: dir(40001) },
        &mut alm,
        10,
    );
    assert_eq!(
        e,
        vec![
            Efecto::Enviar(
                ENVIADOR_COMENSAL,
                Linea::RechazarViaje(MotivoRechazo::EnviadorNoDisponible)
            ),
            baja_comensal(dir(40003)),
        ]
    );
    assert_eq!(
        MotivoRechazo::EnviadorNoDisponible.texto(),
        "Enviador de repartidor no disponible."
    );
}

#[test]
fn un_seguidor_no_toma_pedidos_ni_altas() {
    let eleccion = seguidor();
    let mut alm = Almacenamiento::start().unwrap();
    let s = Server::new(dir(40003), dir(8081), ENVIADOR_COMENSAL);
    assert_eq!(s.solicitar_pedido(pizza(), en(9, 9), &eleccion, &mut alm), vec![]);
    assert_eq!(
        s.posicion(Posicion { posicion: en(1, 1) }, &eleccion, &mut alm, 0),
        vec![]
    );
    assert_eq!(
        s.mensaje_identidad(
            MensajeIdentidad { ubicacion: en(1, 1), soy_repartidor: false },
            &eleccion,
            &mut alm,
            0
        ),
        vec![]
    );
    assert_eq!(alm.cantidades(), (0, 0, 0));
}

#[test]
fn identidad_de_repartidor_lo_guarda_como_repartidor() {
    let eleccion = lider();
    let mut alm = Almacenamiento::start().unwrap();
    sesion_repartidor().mensaje_identidad(
        MensajeIdentidad { ubicacion: en(1, 1), soy_repartidor: true },
        &eleccion,
        &mut alm,
        0,
    );
    assert_eq!(alm.cantidades(), (0, 1, 0));
}

#[test]
fn lineas_de_control_y_json() {
    assert_eq!(linea_control("WhoIsCoordinator"), Some(LineaControl::WhoIsCoordinator));
    assert_eq!(linea_control("Ack"), Some(LineaControl::Ack));
    assert_eq!(linea_control("ACK"), Some(LineaControl::AckFinal));
    assert_eq!(linea_control("ack"), None);
    assert_eq!(linea_control(" Ack"), None);
    assert_eq!(linea_control("{\"respuesta\":\"x\"}"), None);
    assert_eq!(clasificar_linea("  Ack \r\n"), Some(LineaControl::Ack));
    assert_eq!(clasificar_linea("WhoIsCoordinator\n"), Some(LineaControl::WhoIsCoordinator));
    assert_eq!(clasificar_linea(""), None);
    assert_eq!(enmarcar("ACK"), "ACK\n");
    assert_eq!(enmarcar(""), "\n");
}

#[test]
fn gana_la_primera_forma_que_decodifica() {
    let formas = formas_conocidas();
    assert_eq!(formas.len(), 14);
    assert_eq!(formas[0], Forma::MensajePing);
    assert_eq!(formas[13], Forma::ActualizarRestaurantes);
    let mut decodifica = vec![false; 14];
    assert_eq!(primera_forma(&decodifica), None);
    decodifica[9] = true;
    decodifica[5] = true;
    assert_eq!(primera_forma(&decodifica), Some(Forma::Posicion));
    assert_eq!(primera_forma(&vec![false, true]), Some(Forma::MensajeEleccion));
    assert_eq!(
        Entrante::Posicion(Posicion { posicion: en(0, 0) }).forma(),
        Some(Forma::Posicion)
    );
}

#[test]
fn mensajes_entre_replicas_se_acusan_y_se_pasan() {
    let eleccion = lider();
    let mut alm = Almacenamiento::start().unwrap();
    let s = Server::new(dir(50000), dir(8080), 60);
    let m = MensajeEleccion { candidatos: vec![dir(8081)] };
    assert_eq!(
        s.handle(Entrante::MensajeEleccion(m.clone()), &eleccion, &mut alm, en(0, 0), 0),
        vec![Efecto::Enviar(60, Linea::Ack), Efecto::Eleccion(m)]
    );
    let c = MensajeCoordinador { coordinador: dir(8081) };
    assert_eq!(
        s.handle(Entrante::MensajeCoordinador(c), &eleccion, &mut alm, en(0, 0), 0),
        vec![Efecto::Enviar(60, Linea::Ack), Efecto::Coordinador(c)]
    );
    assert_eq!(
        s.handle(
            Entrante::MensajePing(MensajePing { id_enviador: dir(8081) }),
            &eleccion,
            &mut alm,
            en(0, 0),
            0
        ),
        vec![
            Efecto::Enviar(60, Linea::Ack),
            Efecto::ConectarNuevoServidor(ConectarNuevoServidor { nuevo_servidor: dir(8081) }),
        ]
    );
    assert_eq!(
        s.handle(
            Entrante::HacerPedido(HacerPedido {
                id_comensal_mt: dir(40003),
                id_repartidor_mt: dir(40001)
            }),
            &eleccion,
            &mut alm,
            en(0, 0),
            0
        ),
        vec![Efecto::Enviar(60, Linea::Ack)]
    );
}

#[test]
fn quien_es_coordinador_responde_lider_o_ack() {
    let s = Server::new(dir(50000), dir(8081), 60);
    let sin_lider = EleccionCoordinador::new(dir(8081), vec![dir(8080), dir(8081)]);
    assert_eq!(
        s.who_is_coordinator(WhoIsCoordinator, &sin_lider),
        vec![Efecto::Enviar(60, Linea::Ack)]
    );
    assert_eq!(
        s.who_is_coordinator(WhoIsCoordinator, &seguidor()),
        vec![Efecto::Enviar(
            60,
            Linea::QuienEsCoordinador(QuienEsCoordinador { direccion_coordinador: dir(8080) })
        )]
    );
}

#[test]
fn busqueda_delegada_propone_al_lider_o_calla_sin_lider() {
    let mut alm = Almacenamiento::start().unwrap();
    let s = Server::new(dir(8080), dir(8081), 60);
    let pedido = HandlePedido { id_comensal_ht: dir(40003) };
    let sin_lider = EleccionCoordinador::new(dir(8081), vec![dir(8080), dir(8081)]);
    assert_eq!(s.handle_pedido(pedido, &sin_lider, &mut alm, 0), vec![]);
    assert_eq!(
        s.handle_pedido(pedido, &seguidor(), &mut alm, 0),
        vec![Efecto::EnviarAlCoordinador(
            dir(8080),
            HacerPedido { id_comensal_mt: dir(40003), id_repartidor_mt: Direccion::nula() }
        )]
    );
    s.aplicar_delta(
        Delta::Repartidores(ActualizarRepartidores {
            accion: Accion::Insertar,
            repartidor: dir(40001),
            posicion: en(1, 1),
            id_comensal_actual: None,
            status: EstadoRepartidor::Active,
        }),
        &mut alm,
        0,
    );
    assert_eq!(
        s.handle_pedido(pedido, &seguidor(), &mut alm, 0),
        vec![Efecto::EnviarAlCoordinador(
            dir(8080),
            HacerPedido { id_comensal_mt: dir(40003), id_repartidor_mt: dir(40001) }
        )]
    );
}

#[test]
fn respuesta_del_lider_a_una_propuesta() {
    let viaje = HacerPedido { id_comensal_mt: dir(40003), id_repartidor_mt: dir(40001) };
    assert_eq!(respuesta_de_coordinador(None), ResultadoEnvio::SinRespuesta);
    assert_eq!(respuesta_de_coordinador(Some("Ack\n")), ResultadoEnvio::Aceptado);
    assert_eq!(respuesta_de_coordinador(Some("ACK\n")), ResultadoEnvio::NoAceptado);
    assert_eq!(tras_enviar_viaje(viaje, ResultadoEnvio::Aceptado), None);
    assert_eq!(tras_enviar_viaje(viaje, ResultadoEnvio::SinRespuesta), None);
    assert_eq!(
        tras_enviar_viaje(viaje, ResultadoEnvio::NoAceptado),
        Some(HandlePedido { id_comensal_ht: dir(40003) })
    );
    let mut r = enviar_viaje_a_coordinador(dir(8080));
    for _ in 0..3 {
        assert_eq!(r.objetivo(), Some(dir(8080)));
        r.registrar_fallo();
    }
    assert_eq!(r.objetivo(), None);
}

#[test]
fn aplicar_un_delta_dos_veces_es_aplicarlo_una() {
    let s = Server::new(dir(8080), dir(8081), 60);
    let deltas = vec![
        Delta::Comensales(ActualizarComensales {
            accion: Accion::Insertar,
            comensal: dir(40003),
            origen: en(2, 2),
            destino: en(3, 3),
        }),
        Delta::Repartidores(ActualizarRepartidores {
            accion: Accion::Insertar,
            repartidor: dir(40001),
            posicion: en(1, 1),
            id_comensal_actual: None,
            status: EstadoRepartidor::Active,
        }),
        Delta::Repartidores(ActualizarRepartidores {
            accion: Accion::Actualizar,
            repartidor: dir(40001),
            posicion: en(1, 1),
            id_comensal_actual: Some(dir(40003)),
            status: EstadoRepartidor::Waiting,
        }),
        Delta::Restaurantes(ActualizarRestaurantes {
            accion: Accion::Insertar,
            restaurante: dir(40002),
            posicion: en(2, 2),
            id_comensal_actual: None,
            status: EstadoRepartidor::Active,
        }),
        Delta::Comensales(ActualizarComensales {
            accion: Accion::Eliminar,
            comensal: dir(40003),
            origen: en(0, 0),
            destino: en(0, 0),
        }),
        Delta::Repartidores(ActualizarRepartidores {
            accion: Accion::Eliminar,
            repartidor: dir(40001),
            posicion: en(0, 0),
            id_comensal_actual: None,
            status: EstadoRepartidor::Active,
        }),
        Delta::Restaurantes(ActualizarRestaurantes {
            accion: Accion::Eliminar,
            restaurante: dir(40002),
            posicion: en(0, 0),
            id_comensal_actual: None,
            status: EstadoRepartidor::Active,
        }),
    ];
    let mut una = Almacenamiento::start().unwrap();
    let mut dos = Almacenamiento::start().unwrap();
    for d in deltas {
        s.aplicar_delta(d, &mut una, 7);
        s.aplicar_delta(d, &mut dos, 5);
        s.aplicar_delta(d, &mut dos, 7);
        assert_eq!(una.cantidades(), dos.cantidades());
        for p in [40001, 40002, 40003] {
            assert_eq!(
                una.obtener_comensal(ObtenerComensal { id: dir(p) }),
                dos.obtener_comensal(ObtenerComensal { id: dir(p) })
            );
            assert_eq!(
                una.obtener_repartidor(ObtenerRepartidor { id: dir(p) }),
                dos.obtener_repartidor(ObtenerRepartidor { id: dir(p) })
            );
            assert_eq!(una.obtener_restaurante(dir(p)), dos.obtener_restaurante(dir(p)));
        }
    }
    assert_eq!(una.cantidades(), (0, 0, 0));
}

#[test]
fn un_comensal_replicado_no_tiene_enviador() {
    let s = Server::new(dir(8080), dir(8081), 60);
    let mut alm = Almacenamiento::start().unwrap();
    s.aplicar_delta(
        Delta::Comensales(ActualizarComensales {
            accion: Accion::Insertar,
            comensal: dir(40003),
            origen: en(2, 2),
            destino: en(3, 3),
        }),
        &mut alm,
        0,
    );
    let c = alm.obtener_comensal(ObtenerComensal { id: dir(40003) }).unwrap();
    assert_eq!(c.enviador_comensal, None);
    assert_eq!(c.posicion_comensal, en(2, 2));
    assert_eq!(c.destino_comensal, en(3, 3));
}

#[test]
fn arrancar_sin_peers_es_un_error() {
    assert_eq!(
        Server::start(dir(8080), &vec![]),
        Err(ServidorError::InvalidSockets("No hay peers".to_string()))
    );
    assert_eq!(Server::start(dir(8080), &vec![dir(8080)]), Ok(()));
}

#[test]
fn una_linea_de_control_escrita_se_lee_igual() {
    for c in [LineaControl::WhoIsCoordinator, LineaControl::Ack, LineaControl::AckFinal] {
        assert_eq!(linea_control(c.texto()), Some(c));
        assert_eq!(clasificar_linea(&enmarcar(c.texto())), Some(c));
    }
    assert_eq!(LineaControl::WhoIsCoordinator.texto(), "WhoIsCoordinator");
    assert_eq!(LineaControl::Ack.texto(), "Ack");
    assert_eq!(LineaControl::AckFinal.texto(), "ACK");
}

#[test]
fn la_respuesta_del_gateway_llega_por_el_hub() {
    let (eleccion, mut alm) = replica_con_recursos();
    let comensal = sesion_comensal();
    comensal.solicitar_pedido(pizza(), en(9, 9), &eleccion, &mut alm);
    let pedido = PedidoAlRestaurante {
        direccion_comensal_r: dir(40003),
        esta_aceptado: true,
        comida: "Pizza".to_string(),
        posicion_comensal: en(3, 3),
    };
    let entrante = Entrante::Autorizacion(
        Autorizacion { direccion_comensal: dir(40003), esta_autorizado: false },
        pedido,
    );
    assert_eq!(entrante.forma(), None);
    let e = comensal.handle(entrante, &eleccion, &mut alm, en(0, 0), 10);
    assert_eq!(
        e,
        vec![
            Efecto::Enviar(
                ENVIADOR_COMENSAL,
                Linea::RechazarViaje(MotivoRechazo::SaldoInsuficiente)
            ),
            baja_comensal(dir(40003)),
        ]
    );
}

#[test]
fn pago_autorizado_sin_restaurante_abierto_rechaza_por_falta_de_recursos() {
    let (eleccion, mut alm) = replica_con_recursos();
    let comensal = sesion_comensal();
    comensal.solicitar_pedido(pizza(), en(9, 9), &eleccion, &mut alm);
    alm.borrar_restaurante(reparto::almacenamiento::mensajes_almacenamiento::BorrarRestaurante {
        id: dir(40002),
    });
    let e = comensal.autorizacion(
        Autorizacion { direccion_comensal: dir(40003), esta_autorizado: true },
        PedidoAlRestaurante {
            direccion_comensal_r: dir(40003),
            esta_aceptado: true,
            comida: "Pizza".to_string(),
            posicion_comensal: en(3, 3),
        },
        &mut alm,
    );
    assert_eq!(
        e,
        vec![
            Efecto::Enviar(ENVIADOR_COMENSAL, Linea::RechazarViaje(MotivoRechazo::SinRecursos)),
            baja_comensal(dir(40003)),
        ]
    );
}

/// The lines among the effects that end an order for one writer.
fn finales_para(efectos: &[Efecto], enviador: u64) -> Vec<&Linea> {
    let mut finales = Vec::new();
    for efecto in efectos {
        if let Efecto::Enviar(a, linea) = efecto {
            let es_final = matches!(linea, Linea::RechazarViaje(_) | Linea::AckFinal);
            if *a == enviador && es_final {
                finales.push(linea);
            }
        }
    }
    finales
}

#[test]
fn un_pedido_entregado_termina_una_sola_vez() {
    let (eleccion, mut alm) = replica_con_recursos();
    let mut todos: Vec<Efecto> = Vec::new();
    let comensal = sesion_comensal();
    let pedido = PedidoAlRestaurante {
        direccion_comensal_r: dir(40003),
        esta_aceptado: true,
        comida: "Pizza".to_string(),
        posicion_comensal: en(3, 3),
    };
    let fin = FinalizarViaje {
        direccion_comensal_f: dir(40003),
        direccion_conductor_f: dir(40001),
        pos_destino: en(3, 3),
    };
    let pasos: Vec<(Server, Entrante)> = vec![
        (sesion_comensal(), Entrante::SolicitarPedido(pizza())),
        (
            sesion_comensal(),
            Entrante::Autorizacion(
                Autorizacion { direccion_comensal: dir(40003), esta_autorizado: true },
                pedido,
            ),
        ),
        (
            sesion_restaurante(),
            Entrante::SolicitarRepartidor(SolicitarRepartidor {
                comida: "Pizza".to_string(),
                origen: en(2, 2),
                destino: en(3, 3),
                pedido_aceptado: true,
                direccion_comensal: dir(40003),
            }),
        ),
        (
            sesion_restaurante(),
            Entrante::HandlePedido(HandlePedido { id_comensal_ht: dir(40003) }),
        ),
        (
            sesion_repartidor(),
            Entrante::RespuestaOfertaViaje(RespuestaOfertaViaje {
                direccion_comensal_r: dir(40003),
                esta_aceptado: true,
            }),
        ),
        (sesion_repartidor(), Entrante::FinalizarViaje(fin)),
        (sesion_comensal(), Entrante::FinalizarViaje(fin)),
    ];
    let mut ahora: u64 = 100;
    for (sesion, entrante) in pasos {
        let estaba = alm.obtener_comensal(ObtenerComensal { id: dir(40003) }).is_some();
        let e = sesion.handle(entrante, &eleccion, &mut alm, en(9, 9), ahora);
        let finales = finales_para(&e, ENVIADOR_COMENSAL).len();
        assert!(finales <= 1);
        if estaba && finales == 1 {
            assert!(alm.obtener_comensal(ObtenerComensal { id: dir(40003) }).is_none());
        }
        todos.extend(e);
        ahora += 100;
    }
    assert_eq!(finales_para(&todos, ENVIADOR_COMENSAL), vec![&Linea::AckFinal]);
    assert_eq!(comensal.client_addr, dir(40003));
}

#[test]
fn un_pedido_rechazado_termina_una_sola_vez() {
    let (eleccion, mut alm) = replica_con_recursos();
    let mut todos: Vec<Efecto> = Vec::new();
    let pedido = PedidoAlRestaurante {
        direccion_comensal_r: dir(40003),
        esta_aceptado: true,
        comida: "Pizza".to_string(),
        posicion_comensal: en(3, 3),
    };
    let rechazo_del_restaurante = SolicitarRepartidor {
        comida: "Pizza".to_string(),
        origen: en(2, 2),
        destino: en(3, 3),
        pedido_aceptado: false,
        direccion_comensal: dir(40003),
    };
    let pasos: Vec<(Server, Entrante)> = vec![
        (sesion_comensal(), Entrante::SolicitarPedido(pizza())),
        (
            sesion_comensal(),
            Entrante::Autorizacion(
                Autorizacion { direccion_comensal: dir(40003), esta_autorizado: true },
                pedido,
            ),
        ),
        (sesion_restaurante(), Entrante::SolicitarRepartidor(rechazo_del_restaurante.clone())),
        // A second refusal finds the diner gone and writes nothing.
        (sesion_restaurante(), Entrante::SolicitarRepartidor(rechazo_del_restaurante)),
    ];
    for (sesion, entrante) in pasos {
        let e = sesion.handle(entrante, &eleccion, &mut alm, en(9, 9), 100);
        todos.extend(e);
    }
    assert_eq!(
        finales_para(&todos, ENVIADOR_COMENSAL),
        vec![&Linea::RechazarViaje(MotivoRechazo::Restaurante)]
    );
    assert_eq!(alm.cantidades(), (0, 1, 1));
}

#[test]
fn la_propuesta_se_reintenta_solo_si_no_hubo_conexion() {
    let viaje = HacerPedido { id_comensal_mt: dir(40003), id_repartidor_mt: dir(40001) };
    let otra_busqueda = PasoViaje::Buscar(HandlePedido { id_comensal_ht: dir(40003) });

    let mut envio = enviar_viaje_a_coordinador(dir(8080));
    assert_eq!(
        respuesta_de_viaje(viaje, &mut envio, &Intento::SinConexion),
        PasoViaje::Intentar(dir(8080))
    );
    assert_eq!(
        respuesta_de_viaje(viaje, &mut envio, &Intento::Respuesta("Ack\n".to_string())),
        PasoViaje::Nada
    );
    assert_eq!(
        respuesta_de_viaje(viaje, &mut envio, &Intento::Respuesta("ACK\n".to_string())),
        otra_busqueda
    );
    assert_eq!(
        respuesta_de_viaje(viaje, &mut envio, &Intento::Respuesta("{}\n".to_string())),
        otra_busqueda
    );
    assert_eq!(respuesta_de_viaje(viaje, &mut envio, &Intento::SinRespuesta), PasoViaje::Nada);
    assert_eq!(respuesta_de_viaje(viaje, &mut envio, &Intento::SinEscritura), PasoViaje::Nada);
    // None of these answers used up an attempt.
    assert_eq!(
        respuesta_de_viaje(viaje, &mut envio, &Intento::SinConexion),
        PasoViaje::Intentar(dir(8080))
    );
    assert_eq!(respuesta_de_viaje(viaje, &mut envio, &Intento::SinConexion), PasoViaje::Nada);
    assert_eq!(envio.objetivo(), None);
}

#[test]
fn la_respuesta_a_la_consulta_se_lee_de_la_linea() {
    let lider = QuienEsCoordinador { direccion_coordinador: dir(8080) };
    let linea = |texto: &str| Intento::Respuesta(texto.to_string());
    assert_eq!(
        respuesta_de_consulta(&linea("{\"direccion_coordinador\":\"127.0.0.1:8080\"}\n"), Some(lider)),
        RespuestaConsulta::Lider(lider)
    );
    assert_eq!(respuesta_de_consulta(&linea("Ack\n"), None), RespuestaConsulta::SinLider);
    assert_eq!(respuesta_de_consulta(&linea("ACK\n"), None), RespuestaConsulta::Nada);
    assert_eq!(respuesta_de_consulta(&linea("\n"), None), RespuestaConsulta::Nada);
    assert_eq!(respuesta_de_consulta(&Intento::SinRespuesta, None), RespuestaConsulta::Nada);
    assert_eq!(respuesta_de_consulta(&Intento::SinEscritura, None), RespuestaConsulta::Nada);
    assert_eq!(respuesta_de_consulta(&Intento::SinConexion, None), RespuestaConsulta::Nada);
}
