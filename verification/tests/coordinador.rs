use reparto::coordinador::coordinador::Coordinador;
use reparto::coordinador::mensajes_coordinador::{
    AgregarServidorADiccionario, ConectarNuevoServidor, ConvertirseEnCoordinador, HandlePedido,
    ObtenerContadorPeer,
};
use reparto::direccion::Direccion;

fn dir(puerto: u16) -> Direccion {
    Direccion { ip: 0x7F00_0001, puerto }
}

fn peers() -> Vec<Direccion> {
    vec![dir(8080), dir(8081), dir(8082)]
}

fn pedido() -> HandlePedido {
    HandlePedido { id_comensal_ht: dir(40003) }
}

fn enlazar(c: &mut Coordinador, puerto: u16, enviador: u64, ahora: u64) {
    c.agregar_servidor_a_diccionario(
        AgregarServidorADiccionario { serv_address: dir(puerto), serv_enviador: enviador },
        ahora,
    );
}

#[test]
fn el_contador_avanza_de_a_uno_y_da_la_vuelta() {
    let mut c = Coordinador::new(dir(8080), peers());
    assert_eq!(c.obtener_contador_peer(ObtenerContadorPeer), 0);
    assert_eq!(c.obtener_contador_peer(ObtenerContadorPeer), 1);
    for esperado in 2..=255u8 {
        assert_eq!(c.obtener_contador_peer(ObtenerContadorPeer), esperado);
    }
    assert_eq!(c.obtener_contador_peer(ObtenerContadorPeer), 0);
}

#[test]
fn sin_enlaces_no_hay_a_quien_delegar() {
    let mut c = Coordinador::new(dir(8080), peers());
    assert_eq!(c.handle_pedido(pedido(), 0), None);
    // The three turns were spent.
    assert_eq!(c.obtener_contador_peer(ObtenerContadorPeer), 3);
    let mut solo = Coordinador::new(dir(8080), vec![]);
    assert_eq!(solo.handle_pedido(pedido(), 0), None);
    assert_eq!(solo.obtener_contador_peer(ObtenerContadorPeer), 0);
}

#[test]
fn los_peers_se_turnan() {
    let mut c = Coordinador::new(dir(8080), peers());
    enlazar(&mut c, 8081, 81, 0);
    enlazar(&mut c, 8082, 82, 0);
    // Turn 0 is 8080, which has no link; turn 1 is 8081.
    assert_eq!(c.handle_pedido(pedido(), 100), Some(81));
    assert_eq!(c.handle_pedido(pedido(), 100), Some(82));
    assert_eq!(c.handle_pedido(pedido(), 100), Some(81));
}

#[test]
fn un_enlace_viejo_pierde_el_turno() {
    let mut c = Coordinador::new(dir(8080), peers());
    enlazar(&mut c, 8081, 81, 0);
    enlazar(&mut c, 8082, 82, 3000);
    // At 5000 the link to 8081 is five seconds old: too old. That to 8082 is two.
    assert_eq!(c.handle_pedido(pedido(), 5000), Some(82));
    // One millisecond earlier the link to 8081 would still do.
    let mut d = Coordinador::new(dir(8080), peers());
    enlazar(&mut d, 8081, 81, 0);
    assert_eq!(d.handle_pedido(pedido(), 4999), Some(81));
    // At 8000 both are too old.
    assert_eq!(c.handle_pedido(pedido(), 8000), None);
}

#[test]
fn agregar_un_peer_conocido_refresca_su_enlace() {
    let mut c = Coordinador::new(dir(8080), peers());
    enlazar(&mut c, 8081, 81, 0);
    assert_eq!(c.obtener_enlace(dir(8081)), Some((81, 0)));
    enlazar(&mut c, 8081, 81, 700);
    enlazar(&mut c, 8081, 81, 700);
    assert_eq!(c.obtener_enlace(dir(8081)), Some((81, 700)));
    assert_eq!(c.actualizacion_broadcast(), vec![81]);
    assert_eq!(c.obtener_enlace(dir(8082)), None);
}

#[test]
fn la_difusion_va_a_todos_los_enlaces() {
    let mut c = Coordinador::new(dir(8080), peers());
    assert_eq!(c.actualizacion_broadcast(), Vec::<u64>::new());
    enlazar(&mut c, 8081, 81, 0);
    enlazar(&mut c, 8082, 82, 0);
    let mut todos = c.actualizacion_broadcast();
    todos.sort();
    assert_eq!(todos, vec![81, 82]);
}

#[test]
fn un_servidor_nuevo_se_conecta_y_uno_conocido_se_refresca() {
    let mut c = Coordinador::new(dir(8080), peers());
    let mut intento = c
        .conectar_nuevo_servidor(ConectarNuevoServidor { nuevo_servidor: dir(8081) }, 10)
        .unwrap();
    assert_eq!(intento.objetivo(), Some(dir(8081)));
    intento.pasar_al_siguiente();
    assert_eq!(intento.objetivo(), None);
    assert_eq!(c.obtener_enlace(dir(8081)), None);
    enlazar(&mut c, 8081, 81, 10);
    assert!(c
        .conectar_nuevo_servidor(ConectarNuevoServidor { nuevo_servidor: dir(8081) }, 900)
        .is_none());
    assert_eq!(c.obtener_enlace(dir(8081)), Some((81, 900)));
    // A replica never connects to itself.
    assert!(c
        .conectar_nuevo_servidor(ConectarNuevoServidor { nuevo_servidor: dir(8080) }, 900)
        .is_none());
    assert!(c.conectar_a_peer(dir(8080)).is_none());
}

#[test]
fn el_nuevo_lider_se_conecta_a_los_demas() {
    let c = Coordinador::new(dir(8081), peers());
    assert_eq!(
        c.convertirse_en_coordinador(ConvertirseEnCoordinador),
        vec![dir(8080), dir(8082)]
    );
}

#[test]
fn una_conexion_lograda_queda_como_enlace_y_una_fallida_se_reintenta() {
    let mut c = Coordinador::new(dir(8080), peers());
    let mut conexion = c.conectar_a_peer(dir(8082)).unwrap();
    assert_eq!(c.respuesta_de_conexion(&mut conexion, None, 10), Some(dir(8082)));
    assert_eq!(c.obtener_enlace(dir(8082)), None);
    assert_eq!(c.respuesta_de_conexion(&mut conexion, Some(82), 20), None);
    assert_eq!(c.obtener_enlace(dir(8082)), Some((82, 20)));
    assert_eq!(conexion.objetivo(), None);
    // A walk that is spent takes no further link.
    assert_eq!(c.respuesta_de_conexion(&mut conexion, Some(99), 30), None);
    assert_eq!(c.obtener_enlace(dir(8082)), Some((82, 20)));

    // Three failures give the peer up, and no link is made.
    let mut conexion = c.conectar_a_peer(dir(8081)).unwrap();
    assert_eq!(c.respuesta_de_conexion(&mut conexion, None, 40), Some(dir(8081)));
    assert_eq!(c.respuesta_de_conexion(&mut conexion, None, 50), Some(dir(8081)));
    assert_eq!(c.respuesta_de_conexion(&mut conexion, None, 60), None);
    assert_eq!(c.obtener_enlace(dir(8081)), None);
    assert_eq!(c.obtener_contador_peer(ObtenerContadorPeer), 0);
}
