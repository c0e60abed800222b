use rust_fundamentals::ex01_getting_started::{es_par, generar_saludo, sumar_numeros};
use rust_fundamentals::ex02_guessing_game::{comparar_suposicion, esta_en_rango, validar_entrada};
use rust_fundamentals::ex03_common_concepts::{
    acumulador_con_limite, escala_temperatura, resumen_lecturas, Escala,
};
use rust_fundamentals::ex04_understanding_ownership::{extraer_primera_palabra, invertir_cadena_in_place};
use rust_fundamentals::ex05_using_structs::{CuentaUsuario, Rectangulo};
use rust_fundamentals::ex06_enums_patterns::{sumar_opcionales, MensajeRed};
use rust_fundamentals::ex07_managing_projects::almacen::Producto;
use rust_fundamentals::ex07_managing_projects::ventas::procesar_pedido;

#[test]
fn test_generar_saludo() {
    assert_eq!(generar_saludo("Rustaceo"), "¡Hola, Rustaceo!");
    assert_eq!(generar_saludo("Mundo"), "¡Hola, Mundo!");
}

#[test]
fn test_sumar_numeros() {
    assert_eq!(sumar_numeros(5, 7), 12);
    assert_eq!(sumar_numeros(-3, 3), 0);
}

#[test]
fn test_es_par() {
    assert!(es_par(4));
    assert!(!es_par(7));
    assert!(es_par(0));
}

#[test]
fn es_par_con_negativos() {
    assert!(es_par(-4));
    assert!(!es_par(-7));
    assert!(!es_par(i32::MIN + 1));
    assert!(es_par(i32::MIN));
}

#[test]
fn test_comparar_suposicion() {
    assert_eq!(comparar_suposicion(50, 70), "¡Muy pequeño!");
    assert_eq!(comparar_suposicion(90, 70), "¡Muy grande!");
    assert_eq!(comparar_suposicion(70, 70), "¡Ganaste!");
}

#[test]
fn test_validar_entrada_exitosa() {
    assert_eq!(validar_entrada("42\n"), Ok(42));
    assert_eq!(validar_entrada("  100  \r\n"), Ok(100));
    assert_eq!(validar_entrada("0"), Ok(0));
}

#[test]
fn test_validar_entrada_fallida() {
    assert_eq!(validar_entrada("hola"), Err("Por favor, introduce un número válido."));
    assert_eq!(validar_entrada("42a"), Err("Por favor, introduce un número válido."));
    assert_eq!(validar_entrada(""), Err("Por favor, introduce un número válido."));
}

#[test]
fn validar_entrada_signos_y_limites() {
    assert_eq!(validar_entrada("+7"), Ok(7));
    assert_eq!(validar_entrada("4294967295"), Ok(4294967295));
    assert_eq!(validar_entrada("4294967296"), Err("Por favor, introduce un número válido."));
    assert_eq!(validar_entrada("-0"), Err("Por favor, introduce un número válido."));
    assert_eq!(validar_entrada("+"), Err("Por favor, introduce un número válido."));
    assert_eq!(validar_entrada("\u{3000}12\u{A0}"), Ok(12));
}

#[test]
fn test_esta_en_rango() {
    assert!(esta_en_rango(50, 1, 100));
    assert!(esta_en_rango(1, 1, 100));
    assert!(esta_en_rango(100, 1, 100));
    assert!(!esta_en_rango(0, 1, 100));
    assert!(!esta_en_rango(101, 1, 100));
}

#[test]
fn test_acumulador_con_limite_exito() {
    let (valor, it) = acumulador_con_limite(2, 2);
    assert_eq!(valor, 128);
    assert_eq!(it, 6);

    let (valor, it) = acumulador_con_limite(10, 1);
    assert_eq!(valor, 10);
    assert_eq!(it, 0);

    let (valor, it) = acumulador_con_limite(5, 0);
    assert_eq!(valor, 0);
    assert_eq!(it, 1);
}

#[test]
fn acumulador_ejemplo_documentado() {
    assert_eq!(acumulador_con_limite(3, 3), (243, 4));
    assert_eq!(acumulador_con_limite(0, 7), (0, 0));
    assert_eq!(acumulador_con_limite(255, 2), (255, 0));
}

#[test]
fn resumen_de_lecturas() {
    let (min, max, suma, criticas) = resumen_lecturas([10, -5, 30, 25, 0, 15, 8, 45], 15);
    assert_eq!(min, -5);
    assert_eq!(max, 45);
    assert_eq!(suma, 128);
    assert_eq!(criticas, 3);
    let (min, max, _, criticas) = resumen_lecturas([12, 15, 8, 20, 25, 30, 5, 18], 15);
    assert_eq!((min, max, criticas), (5, 30, 4));
}

#[test]
fn test_invertir_cadena_in_place() {
    let mut s = String::from("hola mundo");
    invertir_cadena_in_place(&mut s);
    assert_eq!(s, "odnum aloh");

    let mut vacia = String::new();
    invertir_cadena_in_place(&mut vacia);
    assert_eq!(vacia, "");
}

#[test]
fn invertir_dos_veces_restaura() {
    let mut s = String::from("¡Año ñandú!");
    invertir_cadena_in_place(&mut s);
    assert_eq!(s, "!údnañ oñA¡");
    invertir_cadena_in_place(&mut s);
    assert_eq!(s, "¡Año ñandú!");
}

#[test]
fn test_extraer_primera_palabra() {
    let s = "Hola querido mundo";
    assert_eq!(extraer_primera_palabra(s), "Hola");

    let s_sola = "Palabra";
    assert_eq!(extraer_primera_palabra(s_sola), "Palabra");

    let vacia = "";
    assert_eq!(extraer_primera_palabra(vacia), "");
}

#[test]
fn primera_palabra_con_espacio_inicial() {
    assert_eq!(extraer_primera_palabra(" hola"), "");
    assert_eq!(extraer_primera_palabra("año nuevo"), "año");
}

#[test]
fn test_rectangulo_area() {
    let r = Rectangulo::nuevo(10, 5);
    assert_eq!(r.area(), 50);
}

#[test]
fn test_rectangulo_puede_contener() {
    let r1 = Rectangulo::nuevo(20, 20);
    let r2 = Rectangulo::nuevo(10, 10);
    let r3 = Rectangulo::nuevo(25, 10);

    assert!(r1.puede_contener(&r2));
    assert!(!r2.puede_contener(&r1));
    assert!(!r1.puede_contener(&r3));
}

#[test]
fn rectangulo_no_se_contiene_a_si_mismo() {
    let c = Rectangulo::cuadrado(5);
    assert_eq!((c.ancho, c.alto), (5, 5));
    assert!(!c.puede_contener(&c));
}

#[test]
fn test_cuenta_usuario_valida() {
    let c = CuentaUsuario::nuevo("Admin", "admin@web.com");
    assert!(c.is_ok());
    let u = c.unwrap();
    assert_eq!(u.nombre, "Admin");
    assert!(u.activo);
}

#[test]
fn test_cuenta_usuario_invalida() {
    let c = CuentaUsuario::nuevo("User", "correo_sin_arroba");
    assert!(c.is_err());
    assert_eq!(c.err(), Some("Formato de correo electrónico inválido."));
}

#[test]
fn test_mensaje_red_procesar() {
    assert_eq!(MensajeRed::Conectar.procesar(), "Conexión establecida.");
    assert_eq!(MensajeRed::Desconectar.procesar(), "Conexión cerrada.");
    assert_eq!(MensajeRed::Datos(vec![1, 2, 3]).procesar(), "Recibidos 3 bytes de datos.");
}

#[test]
fn mensaje_red_sin_datos() {
    assert_eq!(MensajeRed::Datos(vec![]).procesar(), "Recibidos 0 bytes de datos.");
    assert_eq!(MensajeRed::Datos(vec![0; 1234]).procesar(), "Recibidos 1234 bytes de datos.");
}

#[test]
fn test_sumar_opcionales() {
    assert_eq!(sumar_opcionales(Some(5), Some(5)), Some(10));
    assert_eq!(sumar_opcionales(Some(-10), None), Some(-10));
    assert_eq!(sumar_opcionales(None, Some(8)), Some(8));
    assert_eq!(sumar_opcionales(None, None), None);
}

#[test]
fn sumar_opcionales_conmuta() {
    assert_eq!(sumar_opcionales(Some(3), Some(-9)), sumar_opcionales(Some(-9), Some(3)));
    assert_eq!(sumar_opcionales(None, Some(4)), sumar_opcionales(Some(4), None));
}

#[test]
fn test_gestion_existencias_almacen() {
    let mut p = Producto::nuevo("Monitor 4K", 5);
    assert_eq!(p.consultar_existencias(), 5);

    assert!(p.descontar_existencias(2).is_ok());
    assert_eq!(p.consultar_existencias(), 3);

    assert!(p.descontar_existencias(4).is_err());
}

#[test]
fn test_procesamiento_pedido_ventas() {
    let mut p = Producto::nuevo("Ratón Gaming", 8);
    assert!(procesar_pedido(&mut p, 5).is_ok());
    assert_eq!(p.consultar_existencias(), 3);

    assert!(procesar_pedido(&mut p, 4).is_err());
}

#[test]
fn pedido_rechazado_no_cambia_existencias() {
    let mut p = Producto::nuevo("Teclado", 2);
    assert_eq!(procesar_pedido(&mut p, 3), Err("Existencias insuficientes en almacén."));
    assert_eq!(p.consultar_existencias(), 2);
    assert_eq!(procesar_pedido(&mut p, 2), Ok(()));
    assert_eq!(p.consultar_existencias(), 0);
    assert_eq!(p.nombre, "Teclado");
}

#[test]
fn escalas_de_temperatura() {
    assert_eq!(escala_temperatura('C'), Some(Escala::Celsius));
    assert_eq!(escala_temperatura('f'), Some(Escala::Fahrenheit));
    assert_eq!(escala_temperatura('k'), Some(Escala::Kelvin));
    assert_eq!(escala_temperatura('Z'), None);
    assert_eq!(escala_temperatura('c'), Some(Escala::Celsius));
}

#[test]
fn nombre_del_producto() {
    let p = Producto::nuevo("Monitor 4K", 5);
    assert_eq!(p.nombre(), "Monitor 4K");
    assert_eq!(p.nombre(), p.nombre.as_str());
}

#[test]
fn nombre_publico_tras_venta() {
    let mut p = Producto::nuevo("Teclado", 3);
    assert_eq!(p.nombre, "Teclado");
    assert!(procesar_pedido(&mut p, 5).is_err());
    assert_eq!(p.nombre, "Teclado");
    assert!(procesar_pedido(&mut p, 2).is_ok());
    assert_eq!(p.nombre, "Teclado");
}
