use csv::StringRecord;
use reparto::resenas::parsear_csv::procesar_registros;
use reparto::resenas::review::{
    Review, POSICION_APP_NAME, POSICION_LANGUAGE, POSICION_REVIEW, POSICION_VOTES_HELPFUL,
};

fn generar_vector() -> Vec<String> {
    let mut review_csv = Vec::new();
    for _ in 0..23 {
        review_csv.push("-".to_string());
    }
    review_csv
}

#[test]
fn test_parsear_review() {
    let mut review = generar_vector();
    review[POSICION_APP_NAME] = "FIFA".to_string();
    review[POSICION_LANGUAGE] = "Español".to_string();
    review[POSICION_REVIEW] = "Es el mejor juego que jugue en mi vida".to_string();
    review[POSICION_VOTES_HELPFUL] = "2019".to_string();
    let sr = StringRecord::from(review);

    let r = Review::parse_record(&sr).unwrap();

    assert_eq!(r.app_name, "FIFA");
    assert_eq!(r.language, "Español");
    assert_eq!(r.review, "Es el mejor juego que jugue en mi vida");
    assert_eq!(r.votes_helpful, 2019);
}

#[test]
fn test_parsear_con_votes_mayor_a_u32() {
    let mut review = generar_vector();
    // Un u32 va desde el 0 hasta el 4_294_967_295, por lo que al intentar cargar este numero
    // a la review debería asignarle 0
    review[POSICION_VOTES_HELPFUL] = "4294967296".to_string();
    let sr = StringRecord::from(review);
    let r = Review::parse_record(&sr).unwrap();
    assert_eq!(r.votes_helpful, 0);
}

#[test]
fn registro_corto_no_da_review() {
    let sr = StringRecord::from(vec!["a", "b", "c", "d", "e", "f"]);
    assert!(Review::parse_record(&sr).is_none());
}

#[test]
fn procesar_registros_saltea_los_que_no_tienen_review() {
    let mut uno = generar_vector();
    uno[POSICION_APP_NAME] = "FIFA".to_string();
    uno[POSICION_LANGUAGE] = "Español".to_string();
    uno[POSICION_REVIEW] = "Bien".to_string();
    uno[POSICION_VOTES_HELPFUL] = "3".to_string();
    let registros = vec![
        StringRecord::from(uno.clone()),
        StringRecord::from(vec!["corto"]),
        StringRecord::from(uno),
    ];
    let e = procesar_registros(&registros);
    assert_eq!(e.juegos.get("FIFA").unwrap().reviews, 2);
    assert_eq!(e.idiomas.get("Español").unwrap().cantidad_reviews, 2);
}
