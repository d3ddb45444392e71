use reparto::utils::diccionario::Diccionario;
use reparto::resenas::estadisticas::Estadisticas;
use reparto::resenas::formatear_datos_json::{filtrar_resenas, Output};
use reparto::resenas::idioma::Idioma;
use reparto::resenas::juego::Juego;

fn generar_estadisticas() -> Estadisticas {
    let mut estadisticas = Estadisticas::default();
    let mut juego1 = Juego {
        reviews: 5,
        idiomas: Diccionario::new(),
        reviews_idiomas: Diccionario::new(),
    };
    juego1.idiomas.insert("Español".to_string(), 3);
    juego1.idiomas.insert("Inglés".to_string(), 2);
    juego1
        .reviews_idiomas
        .insert("Español".to_string(), ("Muy bueno".to_string(), 50));
    juego1
        .reviews_idiomas
        .insert("Inglés".to_string(), ("Very good".to_string(), 100));

    let mut juego2 = Juego {
        reviews: 7,
        idiomas: Diccionario::new(),
        reviews_idiomas: Diccionario::new(),
    };
    juego2.idiomas.insert("Francés".to_string(), 6);
    juego2.idiomas.insert("Inglés".to_string(), 1);
    juego2
        .reviews_idiomas
        .insert("Francés".to_string(), ("Très bien!".to_string(), 200));
    juego2
        .reviews_idiomas
        .insert("Inglés".to_string(), ("Very good".to_string(), 20));

    let mut juego3 = Juego {
        reviews: 7,
        idiomas: Diccionario::new(),
        reviews_idiomas: Diccionario::new(),
    };
    juego3.idiomas.insert("Alemán".to_string(), 5);
    juego3.idiomas.insert("Español".to_string(), 1);
    juego3.idiomas.insert("Francés".to_string(), 1);
    juego3
        .reviews_idiomas
        .insert("Español".to_string(), ("Alto juego".to_string(), 70));
    juego3
        .reviews_idiomas
        .insert("Francés".to_string(), (":)".to_string(), 110));
    juego3
        .reviews_idiomas
        .insert("Alemán".to_string(), ("!!!".to_string(), 200));

    let mut juego4 = Juego {
        reviews: 2,
        idiomas: Diccionario::new(),
        reviews_idiomas: Diccionario::new(),
    };
    juego4.idiomas.insert("Inglés".to_string(), 2);
    juego4
        .reviews_idiomas
        .insert("Inglés".to_string(), ("Nice".to_string(), 105));

    estadisticas.juegos.insert("NBA 2k25".to_string(), juego1);
    estadisticas.juegos.insert("God of War".to_string(), juego2);
    estadisticas.juegos.insert("FIFA 17".to_string(), juego3);
    estadisticas.juegos.insert("SuperMario".to_string(), juego4);
    estadisticas
}

#[test]
fn test_filtrar_juegos() {
    let estadisticas = generar_estadisticas();
    let resultado = Output::filtrar_juegos(&estadisticas);
    //deberian ser solo 3
    assert_eq!(resultado.len(), 3);

    //Por orden alfabético FIFA debería ir antes que God of War
    assert_eq!(resultado[0].nombre, "FIFA 17");
    assert_eq!(resultado[1].nombre, "God of War");
    assert_eq!(resultado[2].nombre, "NBA 2k25");
}

#[test]
fn chequear_idiomas_en_top3_juegos() {
    let estadisticas = generar_estadisticas();
    let resultado = Output::filtrar_juegos(&estadisticas);

    let idiomas_fifa = &resultado[0].idiomas;
    let idiomas_gow = &resultado[1].idiomas;
    let idiomas_2k = &resultado[2].idiomas;

    assert_eq!(idiomas_fifa.len(), 3);
    assert_eq!(idiomas_gow.len(), 2);
    assert_eq!(idiomas_2k.len(), 2);

    assert_eq!(idiomas_fifa[0].idioma, "Alemán");
    assert_eq!(idiomas_fifa[0].top_review, "!!!");
    assert_eq!(idiomas_fifa[0].reviews, 5);
    assert_eq!(idiomas_fifa[0].top_review_votos, 200);
    assert_eq!(idiomas_fifa[1].idioma, "Español");
    assert_eq!(idiomas_fifa[1].reviews, 1);
    assert_eq!(idiomas_fifa[1].top_review, "Alto juego");
    assert_eq!(idiomas_fifa[1].top_review_votos, 70);
    assert_eq!(idiomas_fifa[2].idioma, "Francés");
    assert_eq!(idiomas_fifa[2].reviews, 1);
    assert_eq!(idiomas_fifa[2].top_review, ":)");
    assert_eq!(idiomas_fifa[2].top_review_votos, 110);

    assert_eq!(idiomas_gow[0].idioma, "Francés");
    assert_eq!(idiomas_gow[0].top_review, "Très bien!");
    assert_eq!(idiomas_gow[0].reviews, 6);
    assert_eq!(idiomas_gow[0].top_review_votos, 200);
    assert_eq!(idiomas_gow[1].idioma, "Inglés");
    assert_eq!(idiomas_gow[1].reviews, 1);
    assert_eq!(idiomas_gow[1].top_review, "Very good");
    assert_eq!(idiomas_gow[1].top_review_votos, 20);

    assert_eq!(idiomas_2k[0].idioma, "Español");
    assert_eq!(idiomas_2k[0].top_review, "Muy bueno");
    assert_eq!(idiomas_2k[0].reviews, 3);
    assert_eq!(idiomas_2k[0].top_review_votos, 50);
    assert_eq!(idiomas_2k[1].idioma, "Inglés");
    assert_eq!(idiomas_2k[1].reviews, 2);
    assert_eq!(idiomas_2k[1].top_review, "Very good");
    assert_eq!(idiomas_2k[1].top_review_votos, 100);
}

#[test]
fn test_filtrar_idiomas() {
    let mut estadisticas = Estadisticas {
        juegos: Diccionario::new(),
        idiomas: Diccionario::new(),
    };

    // Idioma italiano con 15 reviews, para que despues queden 10
    let mut reviews_it = Vec::new();
    for i in 1..=15 {
        reviews_it.push((format!("Review {}", i), i * 10)); // votos: 10, 20, ..., 150
    }
    let ita = Idioma {
        cantidad_reviews: 15,
        top_reviews: reviews_it,
    };

    let ingl = Idioma {
        cantidad_reviews: 5,
        top_reviews: vec![
            ("Great!".to_string(), 80),
            ("Loved it".to_string(), 95),
            ("Very fun".to_string(), 60),
            ("Nice game".to_string(), 75),
            ("Good enough".to_string(), 50),
        ],
    };

    let esp = Idioma {
        cantidad_reviews: 3,
        top_reviews: vec![
            ("Me encantó".to_string(), 70),
            ("Muy bueno".to_string(), 65),
            ("Excelente".to_string(), 85),
        ],
    };

    //Este deberia quedar afuera por ser el que menos reviews tiene
    let fra = Idioma {
        cantidad_reviews: 1,
        top_reviews: vec![("Incroyable".to_string(), 99)],
    };

    estadisticas.idiomas.insert("it".to_string(), ita);
    estadisticas.idiomas.insert("en".to_string(), ingl);
    estadisticas.idiomas.insert("es".to_string(), esp);
    estadisticas.idiomas.insert("fr".to_string(), fra);

    let resultado = Output::filtrar_idiomas(&estadisticas);

    // Solo deben quedar 3 idiomas
    assert_eq!(resultado.len(), 3);

    // Italiano deberia ir primero, pero solo las primeras 10 reviews tienen que aparecer
    assert_eq!(resultado[0].idioma, "it");
    assert_eq!(resultado[0].reviews, 15);
    assert_eq!(resultado[0].top_reviews.len(), 10);
    assert_eq!(resultado[0].top_reviews[0].review, "Review 15");
    assert_eq!(resultado[0].top_reviews[0].votos, 150);
    assert_eq!(resultado[0].top_reviews[9].votos, 60);

    assert_eq!(resultado[1].idioma, "en");
    assert_eq!(resultado[1].reviews, 5);
    assert_eq!(resultado[1].top_reviews.len(), 5);
    assert_eq!(resultado[1].top_reviews[0].votos, 95);

    assert_eq!(resultado[2].idioma, "es");
    assert_eq!(resultado[2].reviews, 3);
    assert_eq!(resultado[2].top_reviews.len(), 3);
    assert_eq!(resultado[2].top_reviews[0].votos, 85);

    // Chequeo que francés haya quedado afuera
    assert!(resultado.iter().all(|i| i.idioma != "fr"));
}

#[test]
fn output_lleva_el_padron_y_las_dos_listas() {
    let estadisticas = generar_estadisticas();
    let salida = Output::new(&estadisticas);
    assert_eq!(salida.padron, 110310);
    assert_eq!(salida.top3_juegos.len(), 3);
    assert_eq!(salida.top3_idiomas.len(), 0);
}

#[test]
fn resenas_con_iguales_votos_quedan_en_su_orden() {
    let todas = vec![
        ("a".to_string(), 5),
        ("b".to_string(), 9),
        ("c".to_string(), 5),
        ("d".to_string(), 9),
    ];
    let r = filtrar_resenas(&todas);
    let textos: Vec<&str> = r.iter().map(|x| x.review.as_str()).collect();
    assert_eq!(textos, vec!["b", "d", "a", "c"]);
}

#[test]
fn cuenta_mayor_a_u32_se_muestra_truncada() {
    let mut estadisticas = Estadisticas::default();
    let juego = Juego {
        reviews: 4294967296 + 7,
        idiomas: Diccionario::new(),
        reviews_idiomas: Diccionario::new(),
    };
    estadisticas.juegos.insert("Grande".to_string(), juego);
    let r = Output::filtrar_juegos(&estadisticas);
    assert_eq!(r.len(), 1);
    assert_eq!(r[0].reviews, 7);
}
