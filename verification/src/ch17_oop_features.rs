//! Object-oriented patterns: drawable components on a screen, and a post
//! whose life cycle is encoded in its types.
use vstd::prelude::*;
use crate::texto::{agregar_natural, digitos};

verus! {

/// Something that can be drawn; drawing yields the line it reports.
pub trait Dibujable {
    /// The line that drawing `self` reports.
    spec fn linea(&self) -> Seq<char>;

    /// Draws `self`, returning the reported line.
    fn dibujar(&self) -> (r: String)
        ensures
            r@ == self.linea(),
    ;
}

/// A button with a label.
pub struct Boton {
    pub ancho: u32,
    pub alto: u32,
    pub etiqueta: String,
}

/// The line for drawing a button.
pub open spec fn linea_boton(b: Boton) -> Seq<char> {
    "[GUI Botón]: Dibujando botón '"@ + b.etiqueta@ + "' ("@ + digitos(b.ancho as nat) + "x"@
        + digitos(b.alto as nat) + " px)"@
}

impl Dibujable for Boton {
    open spec fn linea(&self) -> Seq<char> {
        linea_boton(*self)
    }

    fn dibujar(&self) -> (r: String) {
        let mut r = String::from_str("[GUI Botón]: Dibujando botón '");
        r.append(self.etiqueta.as_str());
        r.append("' (");
        agregar_natural(&mut r, self.ancho as u64);
        r.append("x");
        agregar_natural(&mut r, self.alto as u64);
        r.append(" px)");
        r
    }
}

/// A text input with a placeholder.
pub struct CampoTexto {
    pub placeholder: String,
}

/// The line for drawing a text input.
pub open spec fn linea_campo(c: CampoTexto) -> Seq<char> {
    "[GUI CampoTexto]: Dibujando input con placeholder '"@ + c.placeholder@ + "'"@
}

impl Dibujable for CampoTexto {
    open spec fn linea(&self) -> Seq<char> {
        linea_campo(*self)
    }

    fn dibujar(&self) -> (r: String) {
        let mut r = String::from_str("[GUI CampoTexto]: Dibujando input con placeholder '");
        r.append(self.placeholder.as_str());
        r.append("'");
        r
    }
}

/// A screen holding drawable components of any kind, drawn through
/// dynamic dispatch.
pub struct Pantalla {
    pub componentes: Vec<Box<dyn Dibujable>>,
}

/// The lines of rendering a screen: a heading, then one line per component.
pub open spec fn lineas_pantalla(p: Seq<Box<dyn Dibujable>>) -> Seq<Seq<char>> {
    seq!["Renderizando componentes de la pantalla:"@] + p.map_values(
        |c: Box<dyn Dibujable>| c.linea(),
    )
}

impl Pantalla {
    /// Renders every component in order, returning the reported lines.
    pub fn renderizar(&self) -> (r: Vec<String>)
        ensures
            r@.map_values(|s: String| s@) == lineas_pantalla(self.componentes@),
    {
        let mut r: Vec<String> = Vec::new();
        r.push(String::from_str("Renderizando componentes de la pantalla:"));
        let mut i: usize = 0;
        while i < self.componentes.len()
            invariant
                i <= self.componentes.len(),
                r@.map_values(|s: String| s@) == seq!["Renderizando componentes de la pantalla:"@]
                    + self.componentes@.take(i as int).map_values(
                    |c: Box<dyn Dibujable>| c.linea(),
                ),
            decreases self.componentes.len() - i,
        {
            let ghost antes = r@;
            let linea = self.componentes[i].dibujar();
            r.push(linea);
            assert(r@.map_values(|s: String| s@) =~= antes.map_values(|s: String| s@).push(
                self.componentes@[i as int].linea(),
            ));
            assert(self.componentes@.take(i + 1).map_values(|c: Box<dyn Dibujable>| c.linea())
                =~= self.componentes@.take(i as int).map_values(
                |c: Box<dyn Dibujable>| c.linea(),
            ).push(self.componentes@[i as int].linea()));
            i = i + 1;
        }
        assert(self.componentes@.take(self.componentes.len() as int) =~= self.componentes@);
        r
    }
}

/// A post being written.
pub struct BorradorPost {
    contenido: String,
}

impl BorradorPost {
    /// The text written so far.
    pub closed spec fn texto(self) -> Seq<char> {
        self.contenido@
    }

    /// An empty draft.
    pub fn nuevo() -> (r: Self)
        ensures
            r.texto() == Seq::<char>::empty(),
    {
        Self { contenido: String::new() }
    }

    /// Appends `texto` to the draft.
    pub fn agregar_texto(&mut self, texto: &str)
        ensures
            final(self).texto() == old(self).texto() + texto@,
    {
        self.contenido.append(texto);
    }

    /// Sends the draft to review, consuming it; the text is kept.
    pub fn solicitar_revision(self) -> (r: PostEnRevision)
        ensures
            r.texto() == self.texto(),
    {
        PostEnRevision { contenido: self.contenido }
    }
}

impl Default for BorradorPost {
    fn default() -> (r: Self)
        ensures
            r.texto() == Seq::<char>::empty(),
    {
        Self::nuevo()
    }
}

/// A post waiting for approval.
pub struct PostEnRevision {
    contenido: String,
}

impl PostEnRevision {
    /// The text under review.
    pub closed spec fn texto(self) -> Seq<char> {
        self.contenido@
    }

    /// Approves the post, consuming it; the text is kept.
    pub fn aprobar(self) -> (r: PostPublicado)
        ensures
            r.texto() == self.texto(),
    {
        PostPublicado { contenido: self.contenido }
    }
}

/// A published post: the only stage whose text can be read.
pub struct PostPublicado {
    contenido: String,
}

impl PostPublicado {
    /// The published text.
    pub closed spec fn texto(self) -> Seq<char> {
        self.contenido@
    }

    /// The text of the post.
    pub fn contenido(&self) -> (r: &str)
        ensures
            r@ == self.texto(),
    {
        self.contenido.as_str()
    }
}

} // verus!
