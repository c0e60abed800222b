use rust_fundamentals::ch02_guessing_game::{evaluar_intento, numero_secreto, Intento};
use rust_fundamentals::ch04_understanding_ownership::{agregar_sufijo, calcular_longitud, primera_palabra};
use rust_fundamentals::ch05_using_structs;
use rust_fundamentals::ch06_enums_patterns::{sumar_uno, valor_en_centavos, EstadoUs, MensajeRed, Moneda};
use rust_fundamentals::ch07_managing_projects::despachar_pedido;
use rust_fundamentals::ch07_managing_projects::restaurante::cocina::{solicitar_limpieza, PlatoPrincipal};
use rust_fundamentals::ch07_managing_projects::restaurante::recepcion::{asignar_mesa, TipoMesa};
use rust_fundamentals::ch09_error_handling::{validar_puerto_servidor, ErrorConfiguracion};
use rust_fundamentals::ch10_generics_traits_lifetimes::{mayor_referencia, Articulo, Punto, Resumible, Tweet};
use rust_fundamentals::ch11_writing_tests::{procesar_adivinanza, saludo_personalizado, sumar_dos, Rectangulo};
use rust_fundamentals::ch12_minigrep::{ejecutar_busqueda, Config};
use rust_fundamentals::ch13_functional_features::{cuadrados_de_pares, Contador};
use rust_fundamentals::ch14_cargo_more::{factorial, fibonacci};
use rust_fundamentals::ch15_smart_pointers::MiBox;
use rust_fundamentals::ch17_oop_features::{Boton, BorradorPost, CampoTexto, Dibujable, Pantalla};
use rust_fundamentals::ch18_patterns_matching::{describir_mensaje, describir_numero, extraer_id_valido, MensajeApp};
use rust_fundamentals::ch19_advanced_features::{aplicar_transformacion, duplicar, Analizador, ParseadorNumerico};
use rust_fundamentals::ch20_web_server::{formatear_respuesta, responder};
use rust_fundamentals::texto::TipoErrorEntero;

#[test]
fn test_rectangulo_puede_contener_menor() {
    let mayor = Rectangulo { ancho: 8, alto: 7 };
    let menor = Rectangulo { ancho: 5, alto: 1 };
    assert!(mayor.puede_contener(&menor));
}

#[test]
fn test_rectangulo_no_puede_contener_mayor() {
    let mayor = Rectangulo { ancho: 8, alto: 7 };
    let menor = Rectangulo { ancho: 5, alto: 1 };
    assert!(!menor.puede_contener(&mayor));
}

#[test]
fn test_sumar_dos_exito() {
    assert_eq!(sumar_dos(2), 4);
    assert_ne!(sumar_dos(2), 5);
}

#[test]
fn test_saludo_mensaje_personalizado() {
    let res = saludo_personalizado("Elena");
    assert!(
        res.contains("Elena"),
        "El saludo no contenía el nombre esperado. Resultado obtenido: '{res}'"
    );
}

#[test]
fn test_con_tipo_result() -> Result<(), String> {
    let r = Rectangulo { ancho: 10, alto: 5 };
    if r.area() == 50 {
        Ok(())
    } else {
        Err(String::from("El cálculo del área es erróneo."))
    }
}

#[test]
fn adivinanza_en_rango() {
    assert_eq!(procesar_adivinanza(1), 1);
    assert_eq!(procesar_adivinanza(100), 100);
    assert_eq!(saludo_personalizado("Rustaceo"), "¡Hola, Rustaceo!");
}

#[test]
fn juego_de_adivinanza() {
    for _ in 0..50 {
        let s = numero_secreto();
        assert!((1..=100).contains(&s));
    }
    assert_eq!(evaluar_intento("abc\n", 40), Intento::Invalido);
    assert_eq!(
        evaluar_intento(" 30\n", 40),
        Intento::Valido { suposicion: 30, pista: "¡Muy pequeño!", gano: false }
    );
    assert_eq!(
        evaluar_intento("40", 40),
        Intento::Valido { suposicion: 40, pista: "¡Ganaste!", gano: true }
    );
}

#[test]
fn propiedad_y_prestamos() {
    let texto = String::from("Sistemas Confiables");
    assert_eq!(calcular_longitud(&texto), 19);
    assert_eq!(calcular_longitud(&String::from("🦀")), 4);
    let mut mensaje = String::from("Hola");
    agregar_sufijo(&mut mensaje);
    assert_eq!(mensaje, "Hola, Mundo Rustáceo");
    assert_eq!(primera_palabra("Rust es increiblemente rápido"), "Rust");
}

#[test]
fn estructuras_y_metodos() {
    let v = ch05_using_structs::ValidadorSeguridad;
    assert!(v.validar_longitud("Texto de prueba"));
    assert!(!v.validar_longitud(" \t\n"));
    let mut r1 = ch05_using_structs::Rectangulo::nuevo(30, 50);
    let r2 = ch05_using_structs::Rectangulo::nuevo(10, 40);
    let c = ch05_using_structs::Rectangulo::cuadrado(25);
    assert_eq!(r1.area(), 1500);
    assert!(r1.puede_contener(&r2));
    assert!(r1.puede_contener(&c));
    assert!(c.puede_contener(&c));
    r1.escalar(2);
    assert_eq!((r1.ancho, r1.alto), (60, 100));
    assert_eq!(r1.area(), 6000);
    assert_eq!(r1.transformar_a_area_total(), 6000);
}

#[test]
fn enums_con_carga() {
    assert_eq!(
        MensajeRed::MoverCursor { x: 100, y: -200 }.procesar(),
        "[Evento Red]: Cursor movido a (100, -200)."
    );
    assert_eq!(
        MensajeRed::EscribirTexto(String::from("¡Hola desde Rust!")).procesar(),
        "[Evento Red]: Mensaje de chat recibido: \"¡Hola desde Rust!\""
    );
    assert_eq!(
        MensajeRed::CambiarColor(34, 139, 34).procesar(),
        "[Evento Red]: Color de interfaz actualizado a RGB(34, 139, 34)."
    );
    assert_eq!(MensajeRed::Desconectar.procesar(), "[Evento Red]: Desconexión solicitada.");
    assert_eq!(valor_en_centavos(Moneda::Cuarto(EstadoUs::California)), 25);
    assert_eq!(valor_en_centavos(Moneda::DiezCentavos), 10);
    assert_eq!(valor_en_centavos(Moneda::Niquel), 5);
    assert_eq!(valor_en_centavos(Moneda::Centavo), 1);
    assert_eq!(sumar_uno(Some(5)), Some(6));
    assert_eq!(sumar_uno(None), None);
}

#[test]
fn modulos_y_visibilidad() {
    assert_eq!(asignar_mesa(&TipoMesa::Terraza), "[Recepción]: Asignando mesa en área: Terraza");
    assert_eq!(asignar_mesa(&TipoMesa::Interior), "[Recepción]: Asignando mesa en área: Interior");
    let plato = PlatoPrincipal::nuevo("Salmón Ahumado", "Eneldo Nórdico");
    assert_eq!(plato.nombre, "Salmón Ahumado");
    assert_eq!(
        plato.cocinar(),
        "[Cocina]: Preparando plato 'Salmón Ahumado' con el toque secreto 'Eneldo Nórdico'."
    );
    assert_eq!(
        solicitar_limpieza(),
        vec![
            String::from("[Cocina]: Solicitando limpieza de estación."),
            String::from("[Mantenimiento]: Estación desinfectada según normativa."),
        ]
    );
    assert_eq!(despachar_pedido(42001), "[Logística]: Despachando pedido #42001 hacia el cliente.");
}

#[test]
fn validacion_de_puertos() {
    assert_eq!(validar_puerto_servidor(8080), Ok(8080));
    assert_eq!(validar_puerto_servidor(1024), Ok(1024));
    assert_eq!(validar_puerto_servidor(65535), Ok(65535));
    assert_eq!(validar_puerto_servidor(80), Err(ErrorConfiguracion::PuertoInvalido(80)));
    assert_eq!(validar_puerto_servidor(70000), Err(ErrorConfiguracion::PuertoInvalido(70000)));
    assert_eq!(
        ErrorConfiguracion::PuertoInvalido(80).mensaje(),
        "Puerto fuera de rango válido (1024-65535): 80"
    );
    assert_eq!(ErrorConfiguracion::IoError(String::from("x")).mensaje(), "Error de E/S de bajo nivel: x");
    assert_eq!(ErrorConfiguracion::ArchivoInvalido(String::from("y")).mensaje(), "Error en archivo: y");
}

#[test]
fn genericos_y_traits() {
    let p1 = Punto { x: 5, y: 10.4 };
    let p2 = Punto { x: "Hola", y: 'c' };
    let p3 = p1.mezclar(p2);
    assert_eq!((p3.x, p3.y), (5, 'c'));
    let articulo = Articulo {
        titular: String::from("Titular"),
        autor: String::from("Autor"),
        contenido: String::from("añ"),
    };
    assert_eq!(articulo.resumir(), "'Titular' por Autor (3 palabras)");
    assert_eq!(articulo.encabezado(), "(Notificación general): 'Titular' por Autor (3 palabras)");
    let tweet = Tweet { usuario: String::from("rustlang"), mensaje: String::from("hola") };
    assert_eq!(tweet.encabezado(), "(Nuevo Tweet en Vivo): @rustlang: hola");
    assert_eq!(mayor_referencia("cadena_larga_principal", "corta"), "cadena_larga_principal");
}

#[test]
fn minigrep_configuracion_y_busqueda() {
    let args = vec![String::from("prog")];
    assert_eq!(Config::build(&args, false), Err("No se especificó el término de búsqueda."));
    let args = vec![String::from("prog"), String::from("seguro")];
    assert_eq!(Config::build(&args, false), Err("No se especificó la ruta del archivo."));
    let args = vec![String::from("prog"), String::from("seguro"), String::from("poema.txt")];
    let config = Config::build(&args, true).unwrap();
    assert_eq!(
        config,
        Config {
            consulta: String::from("seguro"),
            ruta_archivo: String::from("poema.txt"),
            ignorar_mayusculas: true,
        }
    );
    let texto = "Rust:\nrápido, confiable y seguro.\nElige tres.\nSEGURO siempre.";
    assert_eq!(
        ejecutar_busqueda(&config, texto),
        vec![String::from("rápido, confiable y seguro."), String::from("SEGURO siempre.")]
    );
    let sensible = Config { ignorar_mayusculas: false, ..config };
    assert_eq!(ejecutar_busqueda(&sensible, texto), vec![String::from("rápido, confiable y seguro.")]);
}

#[test]
fn contador_personalizado() {
    let mut c = Contador::nuevo(3);
    assert_eq!(c.next(), Some(1));
    assert_eq!(c.next(), Some(2));
    assert_eq!(c.next(), Some(3));
    assert_eq!(c.next(), None);
    assert_eq!(c.next(), None);
}

#[test]
fn api_reexportada() {
    assert_eq!(factorial(5), 120);
    assert_eq!(fibonacci(10), 55);
    assert_eq!(fibonacci(0), 0);
    assert_eq!(fibonacci(1), 1);
    let b = MiBox::new(String::from("Rust"));
    assert_eq!(b.valor(), "Rust");
}

#[test]
fn interfaz_y_typestate() {
    let pantalla = Pantalla {
        componentes: vec![
            Box::new(Boton { ancho: 75, alto: 25, etiqueta: String::from("Aceptar") }),
            Box::new(CampoTexto { placeholder: String::from("Ingrese su correo...") }),
        ],
    };
    assert_eq!(
        pantalla.renderizar(),
        vec![
            String::from("Renderizando componentes de la pantalla:"),
            String::from("[GUI Botón]: Dibujando botón 'Aceptar' (75x25 px)"),
            String::from("[GUI CampoTexto]: Dibujando input con placeholder 'Ingrese su correo...'"),
        ]
    );
    let mut post = BorradorPost::default();
    post.agregar_texto("Composición");
    post.agregar_texto(" y Traits.");
    let publicado = post.solicitar_revision().aprobar();
    assert_eq!(publicado.contenido(), "Composición y Traits.");
}

#[test]
fn patrones_avanzados() {
    assert_eq!(extraer_id_valido(Some(99)), 99);
    assert_eq!(extraer_id_valido(None), 0);
    assert_eq!(describir_mensaje(MensajeApp::Salir), "  Mensaje: Salir de la aplicación.");
    assert_eq!(
        describir_mensaje(MensajeApp::Mover { x: 0, y: 0 }),
        "  Mensaje: Regreso al punto de origen (0, 0)."
    );
    assert_eq!(describir_mensaje(MensajeApp::Mover { x: 10, y: 50 }), "  Mensaje: Mover a (10, 50).");
    assert_eq!(
        describir_mensaje(MensajeApp::CambiarColorRGB(0, 255, 0)),
        "  Mensaje: Color primario detectado (Rojo Puro o Verde Puro)."
    );
    assert_eq!(
        describir_mensaje(MensajeApp::CambiarColorRGB(1, 2, 3)),
        "  Mensaje: Color personalizado RGB(1, 2, 3)."
    );
    assert_eq!(
        describir_mensaje(MensajeApp::MensajeID { id: 5 }),
        "  Mensaje: ID prioritario en rango reservado (1-10): ID #5"
    );
    assert_eq!(describir_mensaje(MensajeApp::MensajeID { id: 11 }), "  Mensaje: ID estándar: #11");
    assert_eq!(describir_numero(Some(4), true), "El número 4 es par y el flag 'es_par' está activo.");
    assert_eq!(describir_numero(Some(4), false), "Número recibido: 4");
    assert_eq!(describir_numero(None, true), "Ningún número disponible.");
}

#[test]
fn caracteristicas_avanzadas() {
    let p = rust_fundamentals::ch19_advanced_features::Punto { x: 1, y: 2 }
        .sumar(rust_fundamentals::ch19_advanced_features::Punto { x: 3, y: 4 });
    assert_eq!((p.x, p.y), (4, 6));
    assert_eq!(p.a_texto(), "(4, 6)");
    let parser = ParseadorNumerico;
    assert_eq!(parser.procesar(String::from("  12345  ")), Ok(12345));
    assert_eq!(parser.procesar(String::from("")), Err(TipoErrorEntero::Vacio));
    assert_eq!(parser.procesar(String::from("99999999999")), Err(TipoErrorEntero::DesbordamientoPositivo));
    assert_eq!(parser.procesar(String::from("-99999999999")), Err(TipoErrorEntero::DesbordamientoNegativo));
    assert_eq!(parser.procesar(String::from("1x")), Err(TipoErrorEntero::DigitoInvalido));
    assert_eq!(aplicar_transformacion(duplicar, 25), 50);
}

#[test]
fn servidor_web_respuestas() {
    let r = responder("GET / HTTP/1.1");
    assert_eq!(r.linea_estado, "HTTP/1.1 200 OK");
    assert!(!r.pausar);
    assert!(r.cuerpo.contains("¡Hola desde el servidor web multihilo de Rust!"));
    let r = responder("GET /sleep HTTP/1.1");
    assert!(r.pausar);
    assert!(r.cuerpo.contains("Respuesta lenta completada"));
    let r = responder("GET /otra HTTP/1.1");
    assert_eq!(r.linea_estado, "HTTP/1.1 404 NOT FOUND");
    assert_eq!(
        formatear_respuesta("HTTP/1.1 200 OK", "ñ"),
        "HTTP/1.1 200 OK\r\nContent-Length: 2\r\nContent-Type: text/html; charset=utf-8\r\n\r\nñ"
    );
}

#[test]
fn cuadrados_de_los_pares() {
    assert_eq!(cuadrados_de_pares(&[1, 2, 3, 4, 5, 6, 7, 8, 9, 10]), vec![4, 16, 36, 64, 100]);
    assert_eq!(cuadrados_de_pares(&[-3, -2, 0, 7]), vec![4, 0]);
    assert_eq!(cuadrados_de_pares(&[]), Vec::<i32>::new());
}

#[test]
fn nombre_del_plato() {
    let plato = PlatoPrincipal::nuevo("Salmón Ahumado", "Eneldo Nórdico");
    assert_eq!(plato.nombre(), "Salmón Ahumado");
}

#[test]
fn pantalla_de_componentes_dinamicos() {
    let pantalla = Pantalla {
        componentes: vec![
            Box::new(CampoTexto { placeholder: String::from("Nombre") }),
            Box::new(Boton { ancho: 60, alto: 20, etiqueta: String::from("Cancelar") }),
            Box::new(CampoTexto { placeholder: String::new() }),
        ],
    };
    assert_eq!(
        pantalla.renderizar(),
        vec![
            String::from("Renderizando componentes de la pantalla:"),
            String::from("[GUI CampoTexto]: Dibujando input con placeholder 'Nombre'"),
            String::from("[GUI Botón]: Dibujando botón 'Cancelar' (60x20 px)"),
            String::from("[GUI CampoTexto]: Dibujando input con placeholder ''"),
        ]
    );
    assert_eq!(Pantalla { componentes: Vec::new() }.renderizar().len(), 1);
    let boton = Boton { ancho: 1, alto: 2, etiqueta: String::from("x") };
    assert_eq!(boton.dibujar(), "[GUI Botón]: Dibujando botón 'x' (1x2 px)");
}
