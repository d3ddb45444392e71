use reparto::almacenamiento::almacenamiento::Almacenamiento;
use reparto::almacenamiento::handlers_almacenamiento::{normalizar, transcurrido};
use reparto::almacenamiento::mensajes_almacenamiento::{
    ActualizarComensalUbicacionRestaurante, ActualizarRepartidor, BorrarComensal,
    BorrarRepartidor, BorrarRepartidoresAusentes, BorrarRestaurante, Finalizado,
    HayRecursosDisponibles, InsertarComensal, InsertarRepartidor, InsertarRestaurante,
    MensajeAlmacenamiento, RespuestaAlmacenamiento,
    ObtenerComensal, ObtenerRepartidor, ObtenerRepartidorCercano, QuieroPedidoSoyComensal,
    RepartidorAusente,
};
use reparto::common::mensajes::FinalizarViaje;
use reparto::direccion::{Coordenadas, Direccion};
use reparto::utils::entidades::EstadoRepartidor;

fn dir(puerto: u16) -> Direccion {
    Direccion { ip: 0x7F00_0001, puerto }
}

fn en(x: i32, y: i32) -> Coordenadas {
    Coordenadas { x, y }
}

fn repartidor(puerto: u16, pos: Coordenadas, estado: EstadoRepartidor, ts: u64) -> InsertarRepartidor {
    InsertarRepartidor {
        id: dir(puerto),
        posicion_restaurante: pos,
        id_comensal_actual: None,
        enviador_repartidor: Some(puerto as u64),
        estado,
        time_stamp: ts,
    }
}

fn restaurante(puerto: u16, pos: Coordenadas, estado: EstadoRepartidor) -> InsertarRestaurante {
    InsertarRestaurante {
        id: dir(puerto),
        posicion_repartidor: pos,
        enviador_repartidor: Some(puerto as u64),
        estado,
        time_stamp: 0,
    }
}

fn comensal(puerto: u16) -> InsertarComensal {
    InsertarComensal {
        id: dir(puerto),
        posicion_restaurante_del_pedido: en(0, 0),
        ubicacion_comensal: en(3, 3),
        enviador_comensal: Some(puerto as u64),
    }
}

#[test]
fn almacenamiento_nuevo_esta_vacio_y_sin_recursos() {
    let a = Almacenamiento::start().unwrap();
    assert_eq!(a.cantidades(), (0, 0, 0));
    assert!(!a.hay_recursos_disponibles(HayRecursosDisponibles));
    assert!(a.finalizado(Finalizado { id_comensal: dir(9000) }));
    assert_eq!(a.obtener_repartidor_cercano(ObtenerRepartidorCercano), None);
}

#[test]
fn hay_recursos_solo_con_repartidor_y_restaurante() {
    let mut a = Almacenamiento::start().unwrap();
    a.insertar_repartidor(repartidor(9001, en(1, 1), EstadoRepartidor::Active, 0));
    assert!(!a.hay_recursos_disponibles(HayRecursosDisponibles));
    a.insertar_restaurante(restaurante(9002, en(2, 2), EstadoRepartidor::Active));
    assert!(a.hay_recursos_disponibles(HayRecursosDisponibles));
    a.borrar_repartidor(BorrarRepartidor { id: dir(9001) });
    assert!(!a.hay_recursos_disponibles(HayRecursosDisponibles));
}

#[test]
fn insertar_repartidor_conocido_conserva_el_enviador() {
    let mut a = Almacenamiento::start().unwrap();
    a.insertar_repartidor(repartidor(9001, en(1, 1), EstadoRepartidor::Active, 10));
    let mut otra_vez = repartidor(9001, en(5, 5), EstadoRepartidor::Active, 20);
    otra_vez.enviador_repartidor = Some(777);
    a.insertar_repartidor(otra_vez);
    let r = a.obtener_repartidor(ObtenerRepartidor { id: dir(9001) }).unwrap();
    assert_eq!(r.posicion_repartidor, en(5, 5));
    assert_eq!(r.restaurante_sender, Some(9001));
    assert_eq!(r.time_stamp, 20);
    assert_eq!(a.cantidades(), (0, 1, 0));
}

#[test]
fn un_repartidor_libre_no_tiene_comensal_y_uno_que_espera_si() {
    assert_eq!(
        normalizar(EstadoRepartidor::Active, Some(dir(1))),
        (EstadoRepartidor::Active, None)
    );
    assert_eq!(
        normalizar(EstadoRepartidor::Waiting, None),
        (EstadoRepartidor::Active, None)
    );
    assert_eq!(
        normalizar(EstadoRepartidor::Waiting, Some(dir(1))),
        (EstadoRepartidor::Waiting, Some(dir(1)))
    );
    assert_eq!(
        normalizar(EstadoRepartidor::OnTrip, Some(dir(1))),
        (EstadoRepartidor::OnTrip, Some(dir(1)))
    );

    let mut a = Almacenamiento::start().unwrap();
    a.insertar_repartidor(repartidor(9001, en(1, 1), EstadoRepartidor::Active, 0));
    a.actualizar_repartidor(ActualizarRepartidor {
        id_repartidor: dir(9001),
        id_comensal: None,
        estado: EstadoRepartidor::Waiting,
        time_stamp: 5,
    });
    let r = a.obtener_repartidor(ObtenerRepartidor { id: dir(9001) }).unwrap();
    assert_eq!(r.estado, EstadoRepartidor::Active);
    assert_eq!(r.id_actual_comensal, None);
    assert_eq!(r.time_stamp, 5);
}

#[test]
fn actualizar_repartidor_desconocido_no_cambia_nada() {
    let mut a = Almacenamiento::start().unwrap();
    a.actualizar_repartidor(ActualizarRepartidor {
        id_repartidor: dir(9001),
        id_comensal: Some(dir(9100)),
        estado: EstadoRepartidor::Waiting,
        time_stamp: 5,
    });
    assert_eq!(a.cantidades(), (0, 0, 0));
    assert!(a.obtener_repartidor(ObtenerRepartidor { id: dir(9001) }).is_none());
}

#[test]
fn comensal_se_inserta_se_actualiza_y_se_borra() {
    let mut a = Almacenamiento::start().unwrap();
    a.insertar_comensal(comensal(9100));
    assert!(!a.finalizado(Finalizado { id_comensal: dir(9100) }));
    a.actualizar_comensal_ubicacion_restaurante(ActualizarComensalUbicacionRestaurante {
        nueva_ubicacion: en(2, 2),
        id_comensal: dir(9100),
    });
    let c = a.obtener_comensal(ObtenerComensal { id: dir(9100) }).unwrap();
    assert_eq!(c.posicion_comensal, en(2, 2));
    assert_eq!(c.destino_comensal, en(3, 3));
    assert_eq!(c.enviador_comensal, Some(9100));
    a.actualizar_comensal_ubicacion_restaurante(ActualizarComensalUbicacionRestaurante {
        nueva_ubicacion: en(7, 7),
        id_comensal: dir(9999),
    });
    assert_eq!(a.cantidades(), (1, 0, 0));
    a.borrar_comensal(BorrarComensal { id: dir(9100) });
    assert!(a.finalizado(Finalizado { id_comensal: dir(9100) }));
    a.borrar_comensal(BorrarComensal { id: dir(9100) });
    assert_eq!(a.cantidades(), (0, 0, 0));
}

#[test]
fn repartidor_cercano_es_el_libre_mas_cerca_del_origen() {
    let mut a = Almacenamiento::start().unwrap();
    a.insertar_repartidor(repartidor(9001, en(4, 4), EstadoRepartidor::Active, 0));
    a.insertar_repartidor(repartidor(9002, en(3, 1), EstadoRepartidor::Active, 0));
    a.insertar_repartidor(repartidor(9003, en(1, 1), EstadoRepartidor::Active, 0));
    a.actualizar_repartidor(ActualizarRepartidor {
        id_repartidor: dir(9003),
        id_comensal: Some(dir(9100)),
        estado: EstadoRepartidor::OnTrip,
        time_stamp: 0,
    });
    assert_eq!(
        a.obtener_repartidor_cercano(ObtenerRepartidorCercano),
        Some(dir(9002))
    );
}

#[test]
fn sin_repartidores_libres_no_hay_cercano() {
    let mut a = Almacenamiento::start().unwrap();
    a.insertar_repartidor(repartidor(9001, en(4, 4), EstadoRepartidor::Active, 0));
    a.actualizar_repartidor(ActualizarRepartidor {
        id_repartidor: dir(9001),
        id_comensal: Some(dir(9100)),
        estado: EstadoRepartidor::Waiting,
        time_stamp: 0,
    });
    assert_eq!(a.obtener_repartidor_cercano(ObtenerRepartidorCercano), None);
}

#[test]
fn restaurante_cercano_es_el_abierto_de_menor_distancia() {
    let mut a = Almacenamiento::start().unwrap();
    a.insertar_restaurante(restaurante(9201, en(10, 10), EstadoRepartidor::Active));
    a.insertar_restaurante(restaurante(9202, en(2, 2), EstadoRepartidor::Active));
    a.insertar_restaurante(restaurante(9203, en(30, 30), EstadoRepartidor::Active));
    a.insertar_restaurante(restaurante(9204, en(3, 3), EstadoRepartidor::OnTrip));
    let r = a
        .quiero_pedido_soy_comensal(QuieroPedidoSoyComensal { ubicacion_comensal: en(3, 3) })
        .unwrap();
    assert_eq!(r.posicion_restaurante, en(2, 2));
    assert_eq!(r.repartidor_sender, Some(9202));
    assert_eq!(a.obtener_restaurante(dir(9202)), Some(r));
    a.borrar_restaurante(BorrarRestaurante { id: dir(9202) });
    let r = a
        .quiero_pedido_soy_comensal(QuieroPedidoSoyComensal { ubicacion_comensal: en(3, 3) })
        .unwrap();
    assert_eq!(r.posicion_restaurante, en(10, 10));
}

#[test]
fn sin_restaurante_abierto_no_hay_cercano() {
    let mut a = Almacenamiento::start().unwrap();
    a.insertar_restaurante(restaurante(9201, en(10, 10), EstadoRepartidor::Waiting));
    assert!(a
        .quiero_pedido_soy_comensal(QuieroPedidoSoyComensal { ubicacion_comensal: en(3, 3) })
        .is_none());
}

#[test]
fn finalizar_viaje_libera_al_repartidor_y_borra_al_comensal() {
    let mut a = Almacenamiento::start().unwrap();
    a.insertar_repartidor(repartidor(9001, en(1, 1), EstadoRepartidor::Active, 0));
    a.insertar_comensal(comensal(9100));
    a.actualizar_repartidor(ActualizarRepartidor {
        id_repartidor: dir(9001),
        id_comensal: Some(dir(9100)),
        estado: EstadoRepartidor::OnTrip,
        time_stamp: 10,
    });
    a.finalizar_viaje(
        FinalizarViaje {
            direccion_comensal_f: dir(9100),
            direccion_conductor_f: dir(9001),
            pos_destino: en(3, 3),
        },
        50,
    );
    let r = a.obtener_repartidor(ObtenerRepartidor { id: dir(9001) }).unwrap();
    assert_eq!(r.estado, EstadoRepartidor::Active);
    assert_eq!(r.id_actual_comensal, None);
    assert_eq!(r.posicion_repartidor, en(3, 3));
    assert_eq!(r.time_stamp, 50);
    assert!(a.finalizado(Finalizado { id_comensal: dir(9100) }));
}

#[test]
fn transcurrido_no_baja_de_cero() {
    assert_eq!(transcurrido(5000, 1000), 4000);
    assert_eq!(transcurrido(1000, 5000), 0);
}

#[test]
fn el_reaper_borra_al_que_espera_mas_de_tres_segundos() {
    let mut a = Almacenamiento::start().unwrap();
    a.insertar_comensal(comensal(9100));
    a.insertar_comensal(comensal(9101));
    a.insertar_repartidor(repartidor(9001, en(1, 1), EstadoRepartidor::Active, 0));
    a.insertar_repartidor(repartidor(9002, en(2, 2), EstadoRepartidor::Active, 0));
    a.insertar_repartidor(repartidor(9003, en(3, 3), EstadoRepartidor::Active, 0));
    a.actualizar_repartidor(ActualizarRepartidor {
        id_repartidor: dir(9001),
        id_comensal: Some(dir(9100)),
        estado: EstadoRepartidor::Waiting,
        time_stamp: 1000,
    });
    a.actualizar_repartidor(ActualizarRepartidor {
        id_repartidor: dir(9002),
        id_comensal: Some(dir(9101)),
        estado: EstadoRepartidor::Waiting,
        time_stamp: 1001,
    });

    // Exactly three seconds is not yet too long.
    let nadie = a.borrar_repartidores_ausentes(BorrarRepartidoresAusentes, 4000);
    assert!(nadie.is_empty());
    assert_eq!(a.cantidades(), (2, 3, 0));

    let ausentes = a.borrar_repartidores_ausentes(BorrarRepartidoresAusentes, 4001);
    assert_eq!(
        ausentes,
        vec![RepartidorAusente {
            id_repartidor: dir(9001),
            id_comensal: Some(dir(9100)),
            enviador_comensal: Some(9100),
        }]
    );
    assert!(a.obtener_repartidor(ObtenerRepartidor { id: dir(9001) }).is_none());
    assert!(a.finalizado(Finalizado { id_comensal: dir(9100) }));
    assert!(a.obtener_repartidor(ObtenerRepartidor { id: dir(9002) }).is_some());
    assert!(!a.finalizado(Finalizado { id_comensal: dir(9101) }));
    assert_eq!(a.cantidades(), (1, 2, 0));
}

#[test]
fn el_reaper_no_toca_al_que_esta_en_viaje() {
    let mut a = Almacenamiento::start().unwrap();
    a.insertar_comensal(comensal(9100));
    a.insertar_repartidor(repartidor(9001, en(1, 1), EstadoRepartidor::Active, 0));
    a.actualizar_repartidor(ActualizarRepartidor {
        id_repartidor: dir(9001),
        id_comensal: Some(dir(9100)),
        estado: EstadoRepartidor::OnTrip,
        time_stamp: 0,
    });
    let ausentes = a.borrar_repartidores_ausentes(BorrarRepartidoresAusentes, 1_000_000);
    assert!(ausentes.is_empty());
    assert_eq!(a.cantidades(), (1, 1, 0));
}

#[test]
fn el_reaper_informa_sin_enviador_si_el_comensal_no_esta() {
    let mut a = Almacenamiento::start().unwrap();
    a.insertar_repartidor(repartidor(9001, en(1, 1), EstadoRepartidor::Active, 0));
    a.actualizar_repartidor(ActualizarRepartidor {
        id_repartidor: dir(9001),
        id_comensal: Some(dir(9100)),
        estado: EstadoRepartidor::Waiting,
        time_stamp: 0,
    });
    let ausentes = a.borrar_repartidores_ausentes(BorrarRepartidoresAusentes, 3001);
    assert_eq!(
        ausentes,
        vec![RepartidorAusente {
            id_repartidor: dir(9001),
            id_comensal: Some(dir(9100)),
            enviador_comensal: None,
        }]
    );
}

#[test]
fn el_buzon_del_almacenamiento_atiende_cada_mensaje() {
    let mut a = Almacenamiento::start().unwrap();
    assert_eq!(
        a.handle(MensajeAlmacenamiento::HayRecursosDisponibles(HayRecursosDisponibles), 0),
        RespuestaAlmacenamiento::Recursos(false)
    );
    assert_eq!(
        a.handle(
            MensajeAlmacenamiento::InsertarRepartidor(repartidor(
                9001,
                en(1, 1),
                EstadoRepartidor::Active,
                0
            )),
            0
        ),
        RespuestaAlmacenamiento::Hecho
    );
    a.handle(
        MensajeAlmacenamiento::InsertarRestaurante(restaurante(9002, en(2, 2), EstadoRepartidor::Active)),
        0,
    );
    a.handle(MensajeAlmacenamiento::InsertarComensal(comensal(9100)), 0);
    assert_eq!(
        a.handle(MensajeAlmacenamiento::HayRecursosDisponibles(HayRecursosDisponibles), 0),
        RespuestaAlmacenamiento::Recursos(true)
    );
    assert_eq!(
        a.handle(MensajeAlmacenamiento::ObtenerRepartidorCercano(ObtenerRepartidorCercano), 0),
        RespuestaAlmacenamiento::Cercano(Some(dir(9001)))
    );
    assert_eq!(
        a.handle(MensajeAlmacenamiento::Finalizado(Finalizado { id_comensal: dir(9100) }), 0),
        RespuestaAlmacenamiento::Finalizado(false)
    );
    a.handle(
        MensajeAlmacenamiento::ActualizarRepartidor(ActualizarRepartidor {
            id_repartidor: dir(9001),
            id_comensal: Some(dir(9100)),
            estado: EstadoRepartidor::Waiting,
            time_stamp: 1000,
        }),
        1000,
    );
    assert_eq!(
        a.handle(
            MensajeAlmacenamiento::BorrarRepartidoresAusentes(BorrarRepartidoresAusentes),
            4001
        ),
        RespuestaAlmacenamiento::Ausentes(vec![RepartidorAusente {
            id_repartidor: dir(9001),
            id_comensal: Some(dir(9100)),
            enviador_comensal: Some(9100),
        }])
    );
    assert_eq!(
        a.handle(MensajeAlmacenamiento::ObtenerComensal(ObtenerComensal { id: dir(9100) }), 4001),
        RespuestaAlmacenamiento::Comensal(None)
    );
    assert_eq!(
        a.handle(MensajeAlmacenamiento::ObtenerRepartidor(ObtenerRepartidor { id: dir(9001) }), 0),
        RespuestaAlmacenamiento::Repartidor(None)
    );
    assert_eq!(a.cantidades(), (0, 0, 1));
}
