use reparto::direccion::{distancia_cuadrada, Coordenadas, Direccion};

#[test]
fn la_clave_lleva_el_host_arriba_y_el_puerto_abajo() {
    let d = Direccion { ip: 0x7F00_0001, puerto: 8080 };
    assert_eq!(d.clave(), 0x7F00_0001u64 * 65536 + 8080);
    assert_eq!(Direccion::de_clave(d.clave()), d);
}

#[test]
fn claves_de_direcciones_distintas_son_distintas() {
    let a = Direccion { ip: 1, puerto: 0 };
    let b = Direccion { ip: 0, puerto: 65535 };
    assert_ne!(a.clave(), b.clave());
    assert_eq!(Direccion::nula().clave(), 0);
}

#[test]
fn distancia_cuadrada_es_la_suma_de_los_cuadrados() {
    let a = Coordenadas { x: 1, y: 1 };
    let b = Coordenadas { x: 4, y: 5 };
    assert_eq!(distancia_cuadrada(a, b), 25);
    assert_eq!(distancia_cuadrada(b, a), 25);
    assert_eq!(distancia_cuadrada(a, a), 0);
}

#[test]
fn distancia_cuadrada_no_desborda_en_los_extremos() {
    let a = Coordenadas { x: i32::MIN, y: i32::MIN };
    let b = Coordenadas { x: i32::MAX, y: i32::MAX };
    let lado: u128 = 0xFFFF_FFFF;
    assert_eq!(distancia_cuadrada(a, b), 2 * lado * lado);
}
