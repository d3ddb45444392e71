use reparto::clientes::comensal::{fin_de_espera, Comensal, FinDeEspera, MensajeServidor};
use reparto::clientes::descubrimiento::{
    conectar_con_coordinador, iniciar_descubrimiento, PasoDescubrimiento, RespuestaServidor,
};
use reparto::clientes::repartidor::Repartidor;
use reparto::clientes::restaurante::{Restaurante, Veredicto};
use reparto::common::mensajes::{
    FinalizarViaje, IniciarViajeDelivery, MensajeIdentidad, OfertarViaje, Posicion,
    QuienEsCoordinador, RechazarViaje, RecibirPedido, RespuestaOfertaViaje, SolicitarPedido,
    SolicitarRepartidor,
};
use reparto::direccion::{Coordenadas, Direccion};
use reparto::server::efectos::MotivoRechazo;

fn dir(puerto: u16) -> Direccion {
    Direccion { ip: 0x7F00_0001, puerto }
}

fn en(x: i32, y: i32) -> Coordenadas {
    Coordenadas { x, y }
}

fn inicio() -> IniciarViajeDelivery {
    IniciarViajeDelivery {
        direccion_comensal_i: dir(40003),
        direccion_conductor_i: dir(40001),
        origen_i: en(2, 2),
        destino_i: en(3, 3),
    }
}

fn pedido(comida: &str, comensal: u16) -> RecibirPedido {
    RecibirPedido {
        direccion_comensal_o: dir(comensal),
        comida: comida.to_string(),
        ubicacion_comensal: en(3, 3),
    }
}

#[test]
fn la_busqueda_del_lider_se_decide_en_el_primer_servidor_que_atiende() {
    assert_eq!(iniciar_descubrimiento(0), PasoDescubrimiento::Abandonar);
    assert_eq!(iniciar_descubrimiento(5), PasoDescubrimiento::Probar(0));
    assert_eq!(
        conectar_con_coordinador(5, 0, RespuestaServidor::SinConexion),
        PasoDescubrimiento::Probar(1)
    );
    assert_eq!(
        conectar_con_coordinador(5, 4, RespuestaServidor::SinConexion),
        PasoDescubrimiento::Abandonar
    );
    assert_eq!(
        conectar_con_coordinador(
            5,
            1,
            RespuestaServidor::Lider(QuienEsCoordinador { direccion_coordinador: dir(8080) })
        ),
        PasoDescubrimiento::Conectar(dir(8080))
    );
    assert_eq!(
        conectar_con_coordinador(5, 1, RespuestaServidor::SinLider),
        PasoDescubrimiento::Abandonar
    );
    assert_eq!(
        conectar_con_coordinador(5, 1, RespuestaServidor::Nada),
        PasoDescubrimiento::Abandonar
    );
    assert_eq!(
        conectar_con_coordinador(usize::MAX, usize::MAX, RespuestaServidor::SinConexion),
        PasoDescubrimiento::Abandonar
    );
}

#[test]
fn el_comensal_pide_a_su_ubicacion_y_avisa_la_llegada() {
    let c = Comensal::new(en(3, 3));
    assert_eq!(
        c.solicitar_un_delivery("Pizza".to_string()),
        SolicitarPedido { comida: "Pizza".to_string(), destino: en(3, 3) }
    );
    assert_eq!(
        c.esperar_comida(inicio()),
        FinalizarViaje {
            direccion_comensal_f: dir(40003),
            direccion_conductor_f: dir(40001),
            pos_destino: en(3, 3),
        }
    );
}

#[test]
fn el_comensal_distingue_inicio_rechazo_y_lo_demas() {
    let c = Comensal::new(en(3, 3));
    let por_restaurante = MotivoRechazo::Restaurante.mensaje();
    let por_saldo = RechazarViaje { respuesta: "Viaje rechazado por saldo insuficiente".to_string() };
    assert_eq!(
        c.handle_mensaje_servidor(Some(inicio()), Some(&por_saldo)),
        MensajeServidor::IniciarViaje(inicio())
    );
    assert_eq!(
        c.handle_mensaje_servidor(None, Some(&por_restaurante)),
        MensajeServidor::Rechazado(true)
    );
    assert_eq!(
        c.handle_mensaje_servidor(None, Some(&por_saldo)),
        MensajeServidor::Rechazado(false)
    );
    assert_eq!(c.handle_mensaje_servidor(None, None), MensajeServidor::Desconocido);
}

#[test]
fn la_espera_del_ack_final() {
    assert_eq!(fin_de_espera(Some("ACK")), FinDeEspera::Confirmado);
    assert_eq!(fin_de_espera(Some(" ACK \n")), FinDeEspera::Confirmado);
    assert_eq!(fin_de_espera(Some("Ack")), FinDeEspera::Inesperado);
    assert_eq!(fin_de_espera(None), FinDeEspera::Reconectar);
}

#[test]
fn el_repartidor_contesta_la_oferta_y_termina_en_el_destino() {
    let mut r = Repartidor::new(Posicion { posicion: en(1, 1) });
    assert_eq!(r.enviar_posicion(), Posicion { posicion: en(1, 1) });
    assert_eq!(
        r.handle_puede_aceptar_viaje(OfertarViaje { direccion_comensal_o: dir(40003) }, true),
        RespuestaOfertaViaje { direccion_comensal_r: dir(40003), esta_aceptado: true }
    );
    assert_eq!(
        r.handle_puede_aceptar_viaje(OfertarViaje { direccion_comensal_o: dir(40003) }, false),
        RespuestaOfertaViaje { direccion_comensal_r: dir(40003), esta_aceptado: false }
    );
    assert_eq!(
        r.handle_iniciar_viaje(inicio()),
        FinalizarViaje {
            direccion_comensal_f: dir(40003),
            direccion_conductor_f: dir(40001),
            pos_destino: en(3, 3),
        }
    );
    assert_eq!(r.enviar_posicion(), Posicion { posicion: en(3, 3) });
}

#[test]
fn el_restaurante_se_anuncia_y_da_su_veredicto() {
    let mut r = Restaurante::new(Posicion { posicion: en(2, 2) });
    assert_eq!(
        r.enviar_posicion(),
        MensajeIdentidad { ubicacion: en(2, 2), soy_repartidor: false }
    );
    let v = r.handle_recibir_pedido(pedido("Pizza", 40003), 1000, true);
    assert_eq!(
        v,
        Some(Veredicto {
            respuesta: RespuestaOfertaViaje {
                direccion_comensal_r: dir(40003),
                esta_aceptado: true
            },
            solicitud: SolicitarRepartidor {
                comida: "Pizza".to_string(),
                origen: en(2, 2),
                destino: en(3, 3),
                pedido_aceptado: true,
                direccion_comensal: dir(40003),
            },
        })
    );
    assert_eq!(r.clientes_atendidos, vec![dir(40003)]);
    assert_eq!(r.ultima_cocina.get("Pizza"), Some(&1000));
}

#[test]
fn el_restaurante_deja_descansar_cada_comida_cinco_segundos() {
    let mut r = Restaurante::new(Posicion { posicion: en(2, 2) });
    assert!(r.handle_recibir_pedido(pedido("Pizza", 40003), 1000, true).is_some());
    // Another diner, same dish, too soon: dropped, and the dish keeps its time.
    assert_eq!(r.handle_recibir_pedido(pedido("Pizza", 40004), 5999, true), None);
    assert_eq!(r.clientes_atendidos, vec![dir(40003)]);
    assert_eq!(r.ultima_cocina.get("Pizza"), Some(&1000));
    // Another dish does not rest.
    assert!(r.handle_recibir_pedido(pedido("Sushi", 40005), 1500, false).is_some());
    // Five seconds later the dish is cooked again.
    let v = r.handle_recibir_pedido(pedido("Pizza", 40004), 6000, false).unwrap();
    assert!(!v.respuesta.esta_aceptado);
    assert!(!v.solicitud.pedido_aceptado);
    assert_eq!(r.ultima_cocina.get("Pizza"), Some(&6000));
    assert_eq!(r.clientes_atendidos, vec![dir(40003), dir(40005), dir(40004)]);
}

#[test]
fn el_restaurante_atiende_una_vez_a_cada_comensal() {
    let mut r = Restaurante::new(Posicion { posicion: en(2, 2) });
    assert!(r.handle_recibir_pedido(pedido("Pizza", 40003), 1000, true).is_some());
    assert_eq!(r.handle_recibir_pedido(pedido("Sushi", 40003), 1000, true), None);
    // The dish counts as cooked all the same.
    assert_eq!(r.ultima_cocina.get("Sushi"), Some(&1000));
    assert_eq!(r.clientes_atendidos, vec![dir(40003)]);
}
