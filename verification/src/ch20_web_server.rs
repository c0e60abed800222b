//! The decisions of the multithreaded web server: which response a request
//! line gets, and how a response is framed.
use vstd::prelude::*;
use crate::texto::{agregar_natural, digitos, iguales, longitud_bytes};

verus! {

/// The page served for `/`.
pub open spec fn pagina_inicio() -> Seq<char> {
    "<!DOCTYPE html>\n<html lang=\"es\">\n<head><meta charset=\"utf-8\"><title>Rust Web Server</title></head>\n<body>\n<h1>🦀 ¡Hola desde el servidor web multihilo de Rust!</h1>\n<p>Este servidor fue construido con <code>std::net::TcpListener</code> y un <code>ThreadPool</code> personalizado.</p>\n<p>Prueba <a href=\"/sleep\">/sleep</a> para ver la concurrencia en acción.</p>\n</body>\n</html>"@
}

/// The page served for `/sleep`, after the pause.
pub open spec fn pagina_lenta() -> Seq<char> {
    "<!DOCTYPE html>\n<html lang=\"es\">\n<head><meta charset=\"utf-8\"><title>Respuesta lenta</title></head>\n<body>\n<h1>⏳ Respuesta lenta completada</h1>\n<p>Esta petición tardó 2 segundos intencionalmente para demostrar que otros hilos del pool siguen atendiendo peticiones mientras tanto.</p>\n</body>\n</html>"@
}

/// The page served for any other request.
pub open spec fn pagina_no_encontrada() -> Seq<char> {
    "<!DOCTYPE html>\n<html lang=\"es\">\n<head><meta charset=\"utf-8\"><title>404</title></head>\n<body><h1>404 - Página no encontrada</h1></body>\n</html>"@
}

/// What the server answers to one request: the status line, the page, and
/// whether it must first pause (to simulate a slow request).
pub struct Respuesta {
    pub linea_estado: &'static str,
    pub cuerpo: &'static str,
    pub pausar: bool,
}

/// Routes a request line: `GET / HTTP/1.1` gets the home page,
/// `GET /sleep HTTP/1.1` the slow page after a pause, anything else a 404.
pub fn responder(linea_peticion: &str) -> (r: Respuesta)
    ensures
        linea_peticion@ == "GET / HTTP/1.1"@ ==> r.linea_estado@ == "HTTP/1.1 200 OK"@ && r.cuerpo@
            == pagina_inicio() && !r.pausar,
        linea_peticion@ == "GET /sleep HTTP/1.1"@ ==> r.linea_estado@ == "HTTP/1.1 200 OK"@
            && r.cuerpo@ == pagina_lenta() && r.pausar,
        linea_peticion@ != "GET / HTTP/1.1"@ && linea_peticion@ != "GET /sleep HTTP/1.1"@
            ==> r.linea_estado@ == "HTTP/1.1 404 NOT FOUND"@ && r.cuerpo@ == pagina_no_encontrada()
            && !r.pausar,
{
    proof {
        reveal_strlit("GET / HTTP/1.1");
        reveal_strlit("GET /sleep HTTP/1.1");
        assert("GET / HTTP/1.1"@[5] != "GET /sleep HTTP/1.1"@[5]);
    }
    if iguales(linea_peticion, "GET / HTTP/1.1") {
        Respuesta {
            linea_estado: "HTTP/1.1 200 OK",
            cuerpo: "<!DOCTYPE html>\n<html lang=\"es\">\n<head><meta charset=\"utf-8\"><title>Rust Web Server</title></head>\n<body>\n<h1>🦀 ¡Hola desde el servidor web multihilo de Rust!</h1>\n<p>Este servidor fue construido con <code>std::net::TcpListener</code> y un <code>ThreadPool</code> personalizado.</p>\n<p>Prueba <a href=\"/sleep\">/sleep</a> para ver la concurrencia en acción.</p>\n</body>\n</html>",
            pausar: false,
        }
    } else if iguales(linea_peticion, "GET /sleep HTTP/1.1") {
        Respuesta {
            linea_estado: "HTTP/1.1 200 OK",
            cuerpo: "<!DOCTYPE html>\n<html lang=\"es\">\n<head><meta charset=\"utf-8\"><title>Respuesta lenta</title></head>\n<body>\n<h1>⏳ Respuesta lenta completada</h1>\n<p>Esta petición tardó 2 segundos intencionalmente para demostrar que otros hilos del pool siguen atendiendo peticiones mientras tanto.</p>\n</body>\n</html>",
            pausar: true,
        }
    } else {
        Respuesta {
            linea_estado: "HTTP/1.1 404 NOT FOUND",
            cuerpo: "<!DOCTYPE html>\n<html lang=\"es\">\n<head><meta charset=\"utf-8\"><title>404</title></head>\n<body><h1>404 - Página no encontrada</h1></body>\n</html>",
            pausar: false,
        }
    }
}

/// The whole HTTP response: status line, `Content-Length` (the body's size
/// in bytes), `Content-Type`, a blank line and the body.
pub fn formatear_respuesta(linea_estado: &str, cuerpo: &str) -> (r: String)
    ensures
        r@ == linea_estado@ + "\r\nContent-Length: "@ + digitos(
            longitud_bytes(cuerpo@) as usize as nat,
        ) + "\r\nContent-Type: text/html; charset=utf-8\r\n\r\n"@ + cuerpo@,
{
    let mut r = String::from_str(linea_estado);
    r.append("\r\nContent-Length: ");
    agregar_natural(&mut r, cuerpo.len() as u64);
    r.append("\r\nContent-Type: text/html; charset=utf-8\r\n\r\n");
    r.append(cuerpo);
    r
}

} // verus!
