use reparto::resenas::estadisticas::{combinar_estadisticas, Estadisticas};
use reparto::resenas::review::Review;

#[test]
fn agregar_una_review() {
    let mut estadisticas = Estadisticas::default();
    let review = Review {
        app_name: "FIFA".to_string(),
        language: "Español".to_string(),
        review: "Alto juego".to_string(),
        votes_helpful: 100,
    };

    estadisticas.agregar_review(review.clone());

    assert!(estadisticas.juegos.contains_key("FIFA"));
    let juego = estadisticas.juegos.get("FIFA").unwrap();
    assert_eq!(juego.reviews, 1);
    assert_eq!(juego.idiomas.get("Español"), Some(&1));
    assert_eq!(
        juego.reviews_idiomas.get("Español"),
        Some(&("Alto juego".to_string(), 100))
    );

    assert!(estadisticas.idiomas.contains_key("Español"));
    let idioma = estadisticas.idiomas.get("Español").unwrap();
    assert_eq!(idioma.cantidad_reviews, 1);
    assert_eq!(idioma.top_reviews, vec![("Alto juego".to_string(), 100)]);
}

#[test]
fn agregar_2_reviews_mismo_juego_distinto_idioma() {
    let mut estadisticas = Estadisticas::default();
    let r1 = Review {
        app_name: "FIFA".to_string(),
        language: "Español".to_string(),
        review: "Alto juego".to_string(),
        votes_helpful: 100,
    };
    let r2 = Review {
        app_name: "FIFA".to_string(),
        language: "Inglés".to_string(),
        review: "Very Good".to_string(),
        votes_helpful: 50,
    };

    estadisticas.agregar_review(r1.clone());
    estadisticas.agregar_review(r2.clone());

    let juego = estadisticas.juegos.get("FIFA").unwrap();
    assert_eq!(juego.reviews, 2);
    assert_eq!(juego.idiomas.get("Español"), Some(&1));
    assert_eq!(juego.idiomas.get("Inglés"), Some(&1));

    assert!(estadisticas.idiomas.contains_key("Español"));
    assert!(estadisticas.idiomas.contains_key("Inglés"));
    let esp = estadisticas.idiomas.get("Español").unwrap();
    assert_eq!(esp.cantidad_reviews, 1);
    assert_eq!(esp.top_reviews, vec![("Alto juego".to_string(), 100)]);

    let ing = estadisticas.idiomas.get("Inglés").unwrap();
    assert_eq!(ing.cantidad_reviews, 1);
    assert_eq!(ing.top_reviews, vec![("Very Good".to_string(), 50)]);
}

#[test]
fn agregar_2_reviews_mismo_juego_mismo_idioma() {
    let mut estadisticas = Estadisticas::default();
    let r1 = Review {
        app_name: "FIFA".to_string(),
        language: "Español".to_string(),
        review: "Alto juego".to_string(),
        votes_helpful: 100,
    };
    let r2 = Review {
        app_name: "FIFA".to_string(),
        language: "Español".to_string(),
        review: "Aguante el modo carrera".to_string(),
        votes_helpful: 50,
    };

    estadisticas.agregar_review(r1.clone());
    estadisticas.agregar_review(r2.clone());

    let juego = estadisticas.juegos.get("FIFA").unwrap();
    assert_eq!(juego.reviews, 2);
    assert_eq!(juego.idiomas.get("Español"), Some(&2));
    assert_eq!(
        juego.reviews_idiomas.get("Español"),
        Some(&("Alto juego".to_string(), 100))
    );
    let esp = estadisticas.idiomas.get("Español").unwrap();
    assert_eq!(esp.cantidad_reviews, 2);
}

#[test]
fn agregar_mismo_mismo_juego_mismo_idioma_con_mas_votos() {
    let mut estadisticas = Estadisticas::default();
    let r1 = Review {
        app_name: "FIFA".to_string(),
        language: "Español".to_string(),
        review: "Alto juego".to_string(),
        votes_helpful: 100,
    };
    let r2 = Review {
        app_name: "FIFA".to_string(),
        language: "Español".to_string(),
        review: "Aguante el modo carrera".to_string(),
        votes_helpful: 200,
    };

    estadisticas.agregar_review(r1.clone());
    estadisticas.agregar_review(r2.clone());
    let juego = estadisticas.juegos.get("FIFA").unwrap();
    assert_eq!(juego.reviews, 2);
    assert_eq!(juego.idiomas.get("Español"), Some(&2));
    assert_eq!(
        juego.reviews_idiomas.get("Español"),
        Some(&("Aguante el modo carrera".to_string(), 200))
    );
    let esp = estadisticas.idiomas.get("Español").unwrap();
    assert_eq!(esp.cantidad_reviews, 2);
}

fn resena(juego: &str, idioma: &str, texto: &str, votos: u32) -> Review {
    Review {
        app_name: juego.to_string(),
        language: idioma.to_string(),
        review: texto.to_string(),
        votes_helpful: votos,
    }
}

#[test]
fn review_sin_votos_no_entra_en_top_reviews() {
    let mut estadisticas = Estadisticas::default();
    estadisticas.agregar_review(resena("FIFA", "Español", "Meh", 0));
    let esp = estadisticas.idiomas.get("Español").unwrap();
    assert_eq!(esp.cantidad_reviews, 1);
    assert!(esp.top_reviews.is_empty());
    let juego = estadisticas.juegos.get("FIFA").unwrap();
    assert_eq!(
        juego.reviews_idiomas.get("Español"),
        Some(&("Meh".to_string(), 0))
    );
}

#[test]
fn empate_de_votos_conserva_la_primera_review() {
    let mut estadisticas = Estadisticas::default();
    estadisticas.agregar_review(resena("FIFA", "Español", "Primera", 10));
    estadisticas.agregar_review(resena("FIFA", "Español", "Segunda", 10));
    let juego = estadisticas.juegos.get("FIFA").unwrap();
    assert_eq!(
        juego.reviews_idiomas.get("Español"),
        Some(&("Primera".to_string(), 10))
    );
}

#[test]
fn combinar_suma_lo_comun_y_conserva_lo_propio() {
    let mut a = Estadisticas::default();
    a.agregar_review(resena("FIFA", "Español", "Alto juego", 100));
    a.agregar_review(resena("Doom", "Inglés", "Rip and tear", 7));
    let mut b = Estadisticas::default();
    b.agregar_review(resena("FIFA", "Español", "Aguante el modo carrera", 200));
    b.agregar_review(resena("FIFA", "Inglés", "Very Good", 50));
    b.agregar_review(resena("Portal", "Inglés", "Cake", 3));

    let r = combinar_estadisticas(a, b);

    assert_eq!(r.juegos.len(), 3);
    let fifa = r.juegos.get("FIFA").unwrap();
    assert_eq!(fifa.reviews, 3);
    assert_eq!(fifa.idiomas.get("Español"), Some(&2));
    assert_eq!(fifa.idiomas.get("Inglés"), Some(&1));
    assert_eq!(
        fifa.reviews_idiomas.get("Español"),
        Some(&("Aguante el modo carrera".to_string(), 200))
    );
    assert_eq!(r.juegos.get("Doom").unwrap().reviews, 1);
    assert_eq!(r.juegos.get("Portal").unwrap().reviews, 1);

    let ing = r.idiomas.get("Inglés").unwrap();
    assert_eq!(ing.cantidad_reviews, 3);
    assert_eq!(
        ing.top_reviews,
        vec![
            ("Rip and tear".to_string(), 7),
            ("Very Good".to_string(), 50),
            ("Cake".to_string(), 3)
        ]
    );
    let esp = r.idiomas.get("Español").unwrap();
    assert_eq!(esp.cantidad_reviews, 2);
}

#[test]
fn combinar_por_partes_da_lo_mismo_que_todo_junto() {
    let todas = vec![
        resena("FIFA", "Español", "Alto juego", 100),
        resena("FIFA", "Español", "Otro", 100),
        resena("Doom", "Inglés", "Rip and tear", 7),
        resena("FIFA", "Inglés", "Very Good", 50),
    ];
    let mut junto = Estadisticas::default();
    for r in todas.iter() {
        junto.agregar_review(r.clone());
    }
    let mut a = Estadisticas::default();
    a.agregar_review(todas[0].clone());
    a.agregar_review(todas[1].clone());
    let mut b = Estadisticas::default();
    b.agregar_review(todas[2].clone());
    b.agregar_review(todas[3].clone());
    let partes = combinar_estadisticas(a, b);

    for nombre in ["FIFA", "Doom"] {
        let x = junto.juegos.get(nombre).unwrap();
        let y = partes.juegos.get(nombre).unwrap();
        assert_eq!(x.reviews, y.reviews);
        for idioma in ["Español", "Inglés"] {
            assert_eq!(x.idiomas.get(idioma), y.idiomas.get(idioma));
            assert_eq!(x.reviews_idiomas.get(idioma), y.reviews_idiomas.get(idioma));
        }
    }
    for idioma in ["Español", "Inglés"] {
        let x = junto.idiomas.get(idioma).unwrap();
        let y = partes.idiomas.get(idioma).unwrap();
        assert_eq!(x.cantidad_reviews, y.cantidad_reviews);
        assert_eq!(x.top_reviews, y.top_reviews);
    }
}
