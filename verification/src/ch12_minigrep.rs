//! The minigrep command line tool: its configuration and its search.
use vstd::prelude::*;
use crate::ex12_minigrep::{lineas_que_contienen, lineas_que_contienen_sin_caso};
use crate::texto::{lineas, minusculas, vistas};

verus! {

/// What to search for, where, and whether case is ignored.
#[derive(Debug, PartialEq)]
pub struct Config {
    pub consulta: String,
    pub ruta_archivo: String,
    pub ignorar_mayusculas: bool,
}

/// The message when the search term is missing.
pub open spec fn mensaje_sin_consulta() -> Seq<char> {
    "No se especificó el término de búsqueda."@
}

/// The message when the file path is missing.
pub open spec fn mensaje_sin_ruta() -> Seq<char> {
    "No se especificó la ruta del archivo."@
}

impl Config {
    /// Builds the configuration from the command-line arguments (the first
    /// one, the program name, is skipped) and from whether the
    /// `IGNORE_CASE` variable is set.
    pub fn build(args: &Vec<String>, ignorar_mayusculas: bool) -> (r: Result<Config, &'static str>)
        ensures
            args.len() < 2 ==> (r matches Err(m) && m@ == mensaje_sin_consulta()),
            args.len() == 2 ==> (r matches Err(m) && m@ == mensaje_sin_ruta()),
            args.len() > 2 ==> (r matches Ok(c) && c.consulta@ == args@[1]@ && c.ruta_archivo@
                == args@[2]@ && c.ignorar_mayusculas == ignorar_mayusculas),
    {
        if args.len() < 2 {
            return Err("No se especificó el término de búsqueda.");
        }
        if args.len() < 3 {
            return Err("No se especificó la ruta del archivo.");
        }
        let consulta = args[1].clone();
        let ruta_archivo = args[2].clone();
        Ok(Config { consulta, ruta_archivo, ignorar_mayusculas })
    }
}

/// The lines of `contenido` that contain `consulta` (case-sensitive), in order.
pub fn buscar<'a>(consulta: &str, contenido: &'a str) -> (r: Vec<&'a str>)
    ensures
        vistas(r@) == lineas_que_contienen(lineas(contenido@), consulta@),
{
    crate::ex12_minigrep::buscar(consulta, contenido)
}

/// The lines of `contenido` that contain `consulta` ignoring case, in order.
pub fn buscar_insensible<'a>(consulta: &str, contenido: &'a str) -> (r: Vec<&'a str>)
    ensures
        vistas(r@) == lineas_que_contienen_sin_caso(lineas(contenido@), minusculas(consulta@)),
{
    crate::ex12_minigrep::buscar_insensible(consulta, contenido)
}

/// The views of a vector of strings.
pub open spec fn vistas_textos(v: Seq<String>) -> Seq<Seq<char>> {
    v.map_values(|x: String| x@)
}

/// Runs the search that the configuration asks for over `texto_fuente`,
/// returning the matching lines as owned strings.
pub fn ejecutar_busqueda(config: &Config, texto_fuente: &str) -> (r: Vec<String>)
    ensures
        vistas_textos(r@) == (if config.ignorar_mayusculas {
            lineas_que_contienen_sin_caso(lineas(texto_fuente@), minusculas(config.consulta@))
        } else {
            lineas_que_contienen(lineas(texto_fuente@), config.consulta@)
        }),
{
    let encontradas = if config.ignorar_mayusculas {
        buscar_insensible(config.consulta.as_str(), texto_fuente)
    } else {
        buscar(config.consulta.as_str(), texto_fuente)
    };
    let mut r: Vec<String> = Vec::new();
    let mut i: usize = 0;
    while i < encontradas.len()
        invariant
            i <= encontradas.len(),
            vistas_textos(r@) == vistas(encontradas@).take(i as int),
        decreases encontradas.len() - i,
    {
        let ghost antes = r@;
        r.push(String::from_str(encontradas[i]));
        assert(vistas_textos(r@) =~= vistas_textos(antes).push(encontradas@[i as int]@));
        assert(vistas(encontradas@).take(i + 1) =~= vistas(encontradas@).take(i as int).push(
            encontradas@[i as int]@,
        ));
        i = i + 1;
    }
    assert(vistas(encontradas@).take(encontradas.len() as int) =~= vistas(encontradas@));
    r
}

} // verus!
