use rust_fundamentals::ex08_common_collections::{
    centrales, contar_frecuencia_palabras, moda, ordenar, suma_enteros,
};
use rust_fundamentals::ex09_error_handling::{parsear_puerto, ErrorPersonalizado};
use rust_fundamentals::ex10_generics_traits_lifetimes::{mayor_con_lifetime, Noticia, Resumible, Tweet};
use rust_fundamentals::ex11_writing_tests::validar_tarjeta_credito;
use rust_fundamentals::ex12_minigrep::{buscar, buscar_insensible};
use rust_fundamentals::ex13_functional_features::{filtrar_y_elevar_cuadrado, FiltroPersonalizado};
use rust_fundamentals::ex14_cargo_more::{factorial, fibonacci};
use rust_fundamentals::ex15_smart_pointers::ListaCons;
use rust_fundamentals::ex16_fearless_concurrency::{
    elevar_al_cuadrado, porciones, suma_porcion, tamano_porcion,
};
use rust_fundamentals::ex17_oop_features::Documento;
use rust_fundamentals::ex18_patterns_matching::{clasificar_acceso, procesar_accion, Accion, Coordenada};
use rust_fundamentals::ex19_advanced_features::{Analizador, ParseadorEnteros};

#[test]
fn test_frecuencia_palabras() {
    let t = "Rust es rápido. Sí, increíblemente rápido.";
    let res = contar_frecuencia_palabras(t);
    assert_eq!(res.get("rápido"), Some(&2));
    assert_eq!(res.get("rust"), Some(&1));
    assert_eq!(res.get("sí"), Some(&1));
}

#[test]
fn frecuencia_ejemplo_documentado() {
    let freq = contar_frecuencia_palabras("Hola, hola, mundo.");
    assert_eq!(*freq.get("hola").unwrap(), 2);
    assert_eq!(*freq.get("mundo").unwrap(), 1);
    assert_eq!(freq.get("Hola"), None);
    assert_eq!(freq.get(""), None);
    let vacio = contar_frecuencia_palabras(" ... ,, ");
    assert_eq!(vacio.get(""), None);
}

#[test]
fn media_y_moda_enteras() {
    assert_eq!(suma_enteros(&[3, 1, 4, 1, 5]), 14);
    assert_eq!(moda(&[3, 1, 4, 1, 5]), 1);
    assert_eq!(moda(&[1, 2, 2, 3, 4]), 2);
    assert_eq!(moda(&[]), 0);
    assert_eq!(moda(&[3, 1, 1, 3]), 3);
    assert_eq!(moda(&[-4, 7, 7, -4, 2]), -4);
    assert_eq!(suma_enteros(&[i32::MAX, i32::MAX]), 2 * (i32::MAX as i64));
}

#[test]
fn puerto_valido_y_errores() {
    assert_eq!(parsear_puerto(" 8080\n"), Ok(8080));
    assert_eq!(
        parsear_puerto("puerto_invalido"),
        Err(ErrorPersonalizado::ParseoInvalido(String::from("invalid digit found in string")))
    );
    assert_eq!(
        parsear_puerto("70000"),
        Err(ErrorPersonalizado::ParseoInvalido(String::from("number too large to fit in target type")))
    );
    assert_eq!(
        parsear_puerto("   "),
        Err(ErrorPersonalizado::ParseoInvalido(String::from("cannot parse integer from empty string")))
    );
    let e = ErrorPersonalizado::NoEncontrado(String::from("sin permiso"));
    assert_eq!(e.mensaje(), "Archivo no encontrado: sin permiso");
}

#[test]
fn mensajes_de_error_de_parseo_como_std() {
    for texto in ["", "+", "-", "12a", "99999", "65535", "-1", "+42", "0"] {
        let esperado = texto.parse::<u16>().map_err(|e| e.to_string());
        let obtenido = match parsear_puerto(texto) {
            Ok(v) => Ok(v),
            Err(ErrorPersonalizado::ParseoInvalido(m)) => Err(m),
            Err(ErrorPersonalizado::NoEncontrado(m)) => Err(m),
        };
        assert_eq!(obtenido, esperado, "texto {:?}", texto);
    }
}

#[test]
fn test_resumible_noticia() {
    let noticia = Noticia {
        titular: String::from("Rust 2024 Lanzado"),
        autor: String::from("Equipo de Rust"),
        contenido: String::from("Nuevas características y mejoras..."),
    };
    assert_eq!(noticia.resumir(), "Rust 2024 Lanzado: por Equipo de Rust");
}

#[test]
fn test_resumible_tweet() {
    let tweet = Tweet {
        usuario: String::from("rust_lang"),
        mensaje: String::from("¡Aprender Rust con Cargo Workspaces es genial!"),
    };
    assert_eq!(tweet.resumir(), "@rust_lang: ¡Aprender Rust con Cargo Workspaces es genial!");
}

#[test]
fn test_mayor_con_lifetime() {
    let s1 = String::from("primera");
    let s2 = "segunda_larga";

    let res = mayor_con_lifetime(&s1, s2);
    assert_eq!(res, "segunda_larga");
}

#[test]
fn mayor_con_lifetime_empate_y_caracteres() {
    assert_eq!(mayor_con_lifetime("corta", "larga_cadena"), "larga_cadena");
    assert_eq!(mayor_con_lifetime("abc", "xyz"), "xyz");
    assert_eq!(mayor_con_lifetime("ñ", "ab"), "ab");
    assert_eq!(mayor_con_lifetime("ñb", "ab"), "ab");
    assert_eq!(mayor_con_lifetime("ññ", "abc"), "abc");
    assert_eq!(mayor_con_lifetime("ñññ", "ab"), "ñññ");
}

#[test]
fn test_tarjeta_valida_luhn() {
    assert!(validar_tarjeta_credito("49927398716").is_ok());
    assert!(validar_tarjeta_credito("4992 7398 716").is_ok());
}

#[test]
fn test_tarjeta_invalida_luhn() {
    assert_eq!(
        validar_tarjeta_credito("49927398717"),
        Err("Número de tarjeta inválido según algoritmo de Luhn.")
    );
}

#[test]
fn test_tarjeta_caracteres_invalidos() {
    assert_eq!(
        validar_tarjeta_credito("4992-7398-716"),
        Err("El número contiene caracteres no permitidos.")
    );
    assert_eq!(
        validar_tarjeta_credito("4992abc9871"),
        Err("El número contiene caracteres no permitidos.")
    );
}

#[test]
fn test_tarjeta_vacia() {
    assert_eq!(validar_tarjeta_credito(""), Err("El número contiene caracteres no permitidos."));
}

#[test]
fn tarjeta_solo_espacios_y_digitos_dobles() {
    assert_eq!(validar_tarjeta_credito(" \t\n"), Err("El número contiene caracteres no permitidos."));
    assert_eq!(validar_tarjeta_credito("0"), Ok(()));
    assert_eq!(validar_tarjeta_credito("18"), Ok(()));
    assert_eq!(validar_tarjeta_credito("4111 1111 1111 1111"), Ok(()));
    assert_eq!(validar_tarjeta_credito("\u{2003}49927398716\u{2003}"), Ok(()));
}

#[test]
fn test_buscar_sensible() {
    let query = "rapido";
    let contenido = "\
Rust es rapido, seguro
y muy divertido.
No es tan rapido como C, pero es más seguro.";

    assert_eq!(
        buscar(query, contenido),
        vec!["Rust es rapido, seguro", "No es tan rapido como C, pero es más seguro."]
    );
}

#[test]
fn test_buscar_insensible() {
    let query = "RuSt";
    let contenido = "\
Rust:
safe, fast, productive.
rustaceo de corazon.";

    assert_eq!(buscar_insensible(query, contenido), vec!["Rust:", "rustaceo de corazon."]);
}

#[test]
fn buscar_lineas_como_std() {
    let contenido = "uno\r\ndos\n\ntres\r\ncuatro\rx\n";
    let esperado: Vec<&str> = contenido.lines().filter(|l| l.contains("")).collect();
    assert_eq!(buscar("", contenido), esperado);
    assert_eq!(buscar("tr", contenido), vec!["tres", "cuatro\rx"]);
    assert_eq!(buscar("o\rx", contenido), vec!["cuatro\rx"]);
    assert_eq!(buscar("x", ""), Vec::<&str>::new());
    assert_eq!(buscar_insensible("ÁRBOL", "un árbol\nuna casa"), vec!["un árbol"]);
}

#[test]
fn test_filtrar_y_elevar_cuadrado() {
    let v = vec![10, -2, 5, 0, 7];
    assert_eq!(filtrar_y_elevar_cuadrado(v, 5), vec![100, 25, 49]);
}

#[test]
fn test_filtro_personalizado_closure() {
    let filtro = FiltroPersonalizado;
    let v = vec![1, 3, 5, 10, 15];

    let res = filtro.filtrar(v, |x| x % 5 == 0);
    assert_eq!(res, vec![5, 10, 15]);
}

#[test]
fn test_factorial() {
    assert_eq!(factorial(4), 24);
    assert_eq!(factorial(1), 1);
}

#[test]
fn factorial_limites() {
    assert_eq!(factorial(0), 1);
    assert_eq!(factorial(5), 120);
    assert_eq!(factorial(20), 2432902008176640000);
}

#[test]
fn test_fibonacci() {
    assert_eq!(fibonacci(2), 1);
    assert_eq!(fibonacci(10), 55);
}

#[test]
fn fibonacci_limites() {
    assert_eq!(fibonacci(0), 0);
    assert_eq!(fibonacci(1), 1);
    assert_eq!(fibonacci(6), 8);
    assert_eq!(fibonacci(93), 12200160415121876738);
}

#[test]
fn test_lista_cons_box() {
    let lista = ListaCons::nueva().prepended(3).prepended(2).prepended(1);

    assert_eq!(lista.longitud(), 3);
}

#[test]
fn lista_cons_vacia_y_orden() {
    assert_eq!(ListaCons::nueva().longitud(), 0);
    let lista = ListaCons::nueva().prepended(7);
    assert_eq!(lista, ListaCons::Cons(7, Box::new(ListaCons::Nil)));
}

#[test]
fn suma_por_porciones() {
    let datos = vec![10; 100];
    let t = tamano_porcion(datos.len(), 4);
    assert_eq!(t, 25);
    assert_eq!(tamano_porcion(10, 3), 4);
    let total: i32 = datos.chunks(t).map(suma_porcion).sum();
    assert_eq!(total, 1000);
    assert_eq!(suma_porcion(&[]), 0);
    assert_eq!(elevar_al_cuadrado(-6), 36);
}

#[test]
fn test_ciclo_vida_documento_state_pattern() {
    let mut doc = Documento::nuevo();
    doc.agregar_texto("Hola Rust OOP");

    assert_eq!(doc.contenido(), "");

    doc.solicitar_revision();
    assert_eq!(doc.contenido(), "");

    doc.publicar();
    assert_eq!(doc.contenido(), "Hola Rust OOP");
}

#[test]
fn borrador_no_se_publica_directamente() {
    let mut doc = Documento::nuevo();
    doc.agregar_texto("texto");
    doc.publicar();
    assert_eq!(doc.contenido(), "");
    doc.solicitar_revision();
    doc.publicar();
    doc.solicitar_revision();
    assert_eq!(doc.contenido(), "texto");
}

#[test]
fn test_procesar_accion() {
    assert_eq!(procesar_accion(Accion::Mover(Coordenada { x: 0, y: 0 })), "Origen detectado.");
    assert_eq!(
        procesar_accion(Accion::Mover(Coordenada { x: 5, y: -2 })),
        "Moviendo a posición física x=5, y=-2."
    );
    assert_eq!(procesar_accion(Accion::Pintar { r: 255, g: 0, b: 0 }), "Pintando de color Rojo Puro.");
    assert_eq!(
        procesar_accion(Accion::Pintar { r: 10, g: 20, b: 30 }),
        "Pintando con color RGB(10, 20, 30)."
    );
    assert_eq!(procesar_accion(Accion::Ninguna), "Ninguna acción a procesar.");
}

#[test]
fn procesar_accion_extremos() {
    assert_eq!(
        procesar_accion(Accion::Mover(Coordenada { x: i32::MIN, y: 0 })),
        "Moviendo a posición física x=-2147483648, y=0."
    );
    assert_eq!(procesar_accion(Accion::Pintar { r: 0, g: 0, b: 0 }), "Pintando con color RGB(0, 0, 0).");
}

#[test]
fn test_clasificar_acceso() {
    assert_eq!(clasificar_acceso(1), "Acceso Administrador Especial: ID 1");
    assert_eq!(clasificar_acceso(50), "Acceso Usuario Estándar.");
    assert_eq!(clasificar_acceso(999), "ID de usuario fuera de rango.");
}

#[test]
fn clasificar_acceso_bordes() {
    assert_eq!(clasificar_acceso(0), "ID de usuario fuera de rango.");
    assert_eq!(clasificar_acceso(10), "Acceso Administrador Especial: ID 10");
    assert_eq!(clasificar_acceso(11), "Acceso Usuario Estándar.");
    assert_eq!(clasificar_acceso(100), "Acceso Usuario Estándar.");
    assert_eq!(clasificar_acceso(101), "ID de usuario fuera de rango.");
}

#[test]
fn test_analizador_tipo_asociado() {
    let parser = ParseadorEnteros;

    let res_ok = parser.analizar(String::from("  42  "));
    assert_eq!(res_ok, Ok(42));

    let res_err = parser.analizar(String::from("no_soy_numero"));
    assert_eq!(res_err, Err("No se pudo parsear el valor como i32."));
}

#[test]
fn analizador_negativos_y_limites() {
    let parser = ParseadorEnteros;
    assert_eq!(parser.analizar(String::from("-2147483648")), Ok(i32::MIN));
    assert_eq!(parser.analizar(String::from("-2147483649")), Err("No se pudo parsear el valor como i32."));
    assert_eq!(parser.analizar(String::from("+2147483647")), Ok(i32::MAX));
}

#[test]
fn ordenar_y_centrales() {
    assert_eq!(ordenar(&[3, -1, 2, 2, 10, 0]), vec![-1, 0, 2, 2, 3, 10]);
    assert_eq!(ordenar(&[]), Vec::<i32>::new());
    assert_eq!(centrales(&[1, 2, 2, 3, 4]), (2, 2));
    assert_eq!(centrales(&[4, 1, 3, 2]), (2, 3));
    assert_eq!(centrales(&[7]), (7, 7));
}

#[test]
fn porciones_de_trabajo() {
    assert_eq!(porciones(10, 4), vec![(0, 4), (4, 8), (8, 10)]);
    assert_eq!(porciones(8, 4), vec![(0, 4), (4, 8)]);
    assert_eq!(porciones(0, 3), Vec::<(usize, usize)>::new());
    assert_eq!(porciones(100, tamano_porcion(100, 4)).len(), 4);
    assert_eq!(porciones(3, 5), vec![(0, 3)]);
}

#[test]
fn repartir_no_cambia_la_suma() {
    let datos: Vec<i32> = (1..=37).map(|x| x * if x % 3 == 0 { -2 } else { 5 }).collect();
    let total: i32 = datos.iter().sum();
    for hilos in 1..=10 {
        let tamano = tamano_porcion(datos.len(), hilos);
        let parciales: i32 = porciones(datos.len(), tamano)
            .into_iter()
            .map(|(a, b)| suma_porcion(&datos[a..b]))
            .sum();
        assert_eq!(parciales, total);
    }
}

#[test]
fn claves_y_longitud_de_frecuencias() {
    let freq = contar_frecuencia_palabras("Hola, hola, mundo. ¡Rust!");
    assert_eq!(freq.len(), 3);
    assert_eq!(freq.claves(), vec!["hola", "mundo", "rust"]);
    for clave in freq.claves() {
        assert!(freq.get(clave).is_some());
    }
    let vacio = contar_frecuencia_palabras(" ... ");
    assert_eq!(vacio.len(), 0);
    assert!(vacio.claves().is_empty());
}

#[test]
fn ciclo_de_vida_con_pasos_fuera_de_orden() {
    let mut doc = Documento::nuevo();
    doc.agregar_texto("Uno ");
    doc.publicar();
    assert_eq!(doc.contenido(), "");
    doc.solicitar_revision();
    doc.agregar_texto("dos");
    assert_eq!(doc.contenido(), "");
    doc.publicar();
    doc.solicitar_revision();
    doc.agregar_texto(" tres");
    doc.publicar();
    assert_eq!(doc.contenido(), "Uno dos tres");
}
