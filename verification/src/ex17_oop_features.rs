//! The state pattern: a document that goes from draft to review to
//! published, and shows its text only once published.
use vstd::prelude::*;

verus! {

/// The stage a document is in.
#[derive(Debug, Clone, Copy, PartialEq, Eq, Structural)]
pub enum Fase {
    Borrador,
    EnRevision,
    Publicado,
}

/// The stage after asking for a review: a draft goes to review, the other
/// stages stay where they are.
pub open spec fn tras_revision(f: Fase) -> Fase {
    match f {
        Fase::Borrador => Fase::EnRevision,
        otra => otra,
    }
}

/// The stage after publishing: a document under review is published, a
/// draft cannot be published directly, a published one stays published.
pub open spec fn tras_publicar(f: Fase) -> Fase {
    match f {
        Fase::EnRevision => Fase::Publicado,
        otra => otra,
    }
}

/// The behaviour of one stage: its transitions and what text it shows.
pub trait Estado {
    /// The stage reached when a review is requested.
    fn solicitar_revision(self) -> Fase;

    /// The stage reached when publishing.
    fn publicar(self) -> Fase;

    /// The text a document in this stage shows: none by default.
    fn contenido<'a>(&self, _doc: &'a Documento) -> (r: &'a str)
        default_ensures
            r@ == Seq::<char>::empty(),
    {
        proof {
            reveal_strlit("");
        }
        ""
    }
}

/// The initial stage.
pub struct Borrador;

impl Estado for Borrador {
    fn solicitar_revision(self) -> (r: Fase)
        ensures
            r == Fase::EnRevision,
    {
        Fase::EnRevision
    }

    fn publicar(self) -> (r: Fase)
        ensures
            r == Fase::Borrador,
    {
        Fase::Borrador
    }
}

/// The stage of a document waiting for review.
pub struct EnRevision;

impl Estado for EnRevision {
    fn solicitar_revision(self) -> (r: Fase)
        ensures
            r == Fase::EnRevision,
    {
        Fase::EnRevision
    }

    fn publicar(self) -> (r: Fase)
        ensures
            r == Fase::Publicado,
    {
        Fase::Publicado
    }
}

/// The final stage.
pub struct Publicado;

impl Estado for Publicado {
    fn solicitar_revision(self) -> (r: Fase)
        ensures
            r == Fase::Publicado,
    {
        Fase::Publicado
    }

    fn publicar(self) -> (r: Fase)
        ensures
            r == Fase::Publicado,
    {
        Fase::Publicado
    }

    /// A published document shows its whole text.
    fn contenido<'a>(&self, doc: &'a Documento) -> (r: &'a str)
        ensures
            r@ == doc.texto(),
    {
        doc.texto.as_str()
    }
}

/// A document: its text and the stage it is in.
pub struct Documento {
    estado: Fase,
    texto: String,
}

impl Documento {
    /// The stage the document is in.
    pub closed spec fn fase(self) -> Fase {
        self.estado
    }

    /// The text written so far.
    pub closed spec fn texto(self) -> Seq<char> {
        self.texto@
    }

    /// An empty draft.
    pub fn nuevo() -> (r: Self)
        ensures
            r.fase() == Fase::Borrador,
            r.texto() == Seq::<char>::empty(),
    {
        Self { estado: Fase::Borrador, texto: String::new() }
    }

    /// Appends `t` to the text; the stage does not change.
    pub fn agregar_texto(&mut self, t: &str)
        ensures
            final(self).texto() == old(self).texto() + t@,
            final(self).fase() == old(self).fase(),
    {
        self.texto.append(t);
    }

    /// The text the document shows: all of it once published, none before.
    pub fn contenido(&self) -> (r: &str)
        ensures
            r@ == (if self.fase() == Fase::Publicado {
                self.texto()
            } else {
                Seq::<char>::empty()
            }),
    {
        match self.estado {
            Fase::Borrador => Borrador.contenido(self),
            Fase::EnRevision => EnRevision.contenido(self),
            Fase::Publicado => Publicado.contenido(self),
        }
    }

    /// Asks for a review; the text does not change.
    pub fn solicitar_revision(&mut self)
        ensures
            final(self).fase() == tras_revision(old(self).fase()),
            final(self).texto() == old(self).texto(),
    {
        self.estado = match self.estado {
            Fase::Borrador => Borrador.solicitar_revision(),
            Fase::EnRevision => EnRevision.solicitar_revision(),
            Fase::Publicado => Publicado.solicitar_revision(),
        };
    }

    /// Publishes the document when it is under review; the text does not change.
    pub fn publicar(&mut self)
        ensures
            final(self).fase() == tras_publicar(old(self).fase()),
            final(self).texto() == old(self).texto(),
    {
        self.estado = match self.estado {
            Fase::Borrador => Borrador.publicar(),
            Fase::EnRevision => EnRevision.publicar(),
            Fase::Publicado => Publicado.publicar(),
        };
    }
}

/// The order of the stages: draft, review, published.
pub open spec fn rango(f: Fase) -> nat {
    match f {
        Fase::Borrador => 0,
        Fase::EnRevision => 1,
        Fase::Publicado => 2,
    }
}

/// No transition ever goes back to an earlier stage, and a published
/// document stays published.
pub proof fn transiciones_sin_retroceso(f: Fase)
    ensures
        rango(tras_revision(f)) >= rango(f),
        rango(tras_publicar(f)) >= rango(f),
        f == Fase::Publicado ==> tras_revision(f) == Fase::Publicado && tras_publicar(f)
            == Fase::Publicado,
{
}

/// A draft is published only after a review: publishing a draft leaves it a
/// draft, while review followed by publishing publishes it.
pub proof fn publicar_requiere_revision()
    ensures
        tras_publicar(Fase::Borrador) == Fase::Borrador,
        tras_publicar(tras_revision(Fase::Borrador)) == Fase::Publicado,
{
}

/// One call on a document: appending a text, asking for a review, or
/// publishing.
pub enum Paso {
    AgregarTexto(Seq<char>),
    SolicitarRevision,
    Publicar,
}

/// The stage of a new document after the calls `pasos`, in order, each taken
/// as its contract says (`agregar_texto` keeps the stage,
/// `solicitar_revision` applies `tras_revision`, `publicar` applies
/// `tras_publicar`).
pub open spec fn fase_tras(pasos: Seq<Paso>) -> Fase
    decreases pasos.len(),
{
    if pasos.len() == 0 {
        Fase::Borrador
    } else {
        let f = fase_tras(pasos.drop_last());
        match pasos.last() {
            Paso::AgregarTexto(_) => f,
            Paso::SolicitarRevision => tras_revision(f),
            Paso::Publicar => tras_publicar(f),
        }
    }
}

/// The text of a new document after the calls `pasos`: every appended text,
/// in call order.
pub open spec fn texto_tras(pasos: Seq<Paso>) -> Seq<char>
    decreases pasos.len(),
{
    if pasos.len() == 0 {
        Seq::empty()
    } else {
        match pasos.last() {
            Paso::AgregarTexto(t) => texto_tras(pasos.drop_last()) + t,
            _ => texto_tras(pasos.drop_last()),
        }
    }
}

/// What a document in stage `f` with text `t` shows (as
/// `Documento::contenido` states it).
pub open spec fn contenido_visible(f: Fase, t: Seq<char>) -> Seq<char> {
    if f == Fase::Publicado {
        t
    } else {
        Seq::empty()
    }
}

/// Some call in `pasos` asks for a review.
pub open spec fn hay_revision(pasos: Seq<Paso>) -> bool {
    exists|i: int| 0 <= i < pasos.len() && #[trigger] pasos[i] is SolicitarRevision
}

/// Some request for review in `pasos` is followed, later, by a publishing.
pub open spec fn revisado_y_publicado(pasos: Seq<Paso>) -> bool {
    exists|i: int, j: int|
        0 <= i < j < pasos.len() && #[trigger] pasos[i] is SolicitarRevision && #[trigger] pasos[j] is Publicar
}

proof fn lema_fases(pasos: Seq<Paso>)
    ensures
        fase_tras(pasos) == Fase::Borrador <==> !hay_revision(pasos),
        fase_tras(pasos) == Fase::EnRevision <==> hay_revision(pasos) && !revisado_y_publicado(
            pasos,
        ),
        fase_tras(pasos) == Fase::Publicado <==> revisado_y_publicado(pasos),
    decreases pasos.len(),
{
    if pasos.len() > 0 {
        let q = pasos.drop_last();
        let n = pasos.len() - 1;
        lema_fases(q);
        assert forall|i: int| 0 <= i < q.len() implies q[i] == pasos[i] by {}
        assert(hay_revision(pasos) <==> hay_revision(q) || pasos[n] is SolicitarRevision) by {
            if hay_revision(pasos) {
                let i = choose|i: int| 0 <= i < pasos.len() && #[trigger] pasos[i] is SolicitarRevision;
                if i < n {
                    assert(q[i] is SolicitarRevision);
                }
            }
            if hay_revision(q) {
                let i = choose|i: int| 0 <= i < q.len() && #[trigger] q[i] is SolicitarRevision;
                assert(pasos[i] is SolicitarRevision);
            }
        }
        assert(revisado_y_publicado(pasos) <==> revisado_y_publicado(q) || (pasos[n] is Publicar
            && hay_revision(q))) by {
            if revisado_y_publicado(pasos) {
                let (i, j) = choose|i: int, j: int|
                    0 <= i < j < pasos.len() && #[trigger] pasos[i] is SolicitarRevision
                        && #[trigger] pasos[j] is Publicar;
                assert(q[i] is SolicitarRevision);
                if j < n {
                    assert(q[j] is Publicar);
                }
            }
            if revisado_y_publicado(q) {
                let (i, j) = choose|i: int, j: int|
                    0 <= i < j < q.len() && #[trigger] q[i] is SolicitarRevision && #[trigger] q[j] is Publicar;
                assert(pasos[i] is SolicitarRevision && pasos[j] is Publicar);
            }
            if pasos[n] is Publicar && hay_revision(q) {
                let i = choose|i: int| 0 <= i < q.len() && #[trigger] q[i] is SolicitarRevision;
                assert(pasos[i] is SolicitarRevision);
            }
        }
    }
}

/// `despues` is what the call `paso` makes of `antes`, as the contract of
/// `agregar_texto`, `solicitar_revision` or `publicar` states it.
pub open spec fn paso_valido(antes: Documento, paso: Paso, despues: Documento) -> bool {
    match paso {
        Paso::AgregarTexto(t) => despues.fase() == antes.fase() && despues.texto() == antes.texto()
            + t,
        Paso::SolicitarRevision => despues.fase() == tras_revision(antes.fase()) && despues.texto()
            == antes.texto(),
        Paso::Publicar => despues.fase() == tras_publicar(antes.fase()) && despues.texto()
            == antes.texto(),
    }
}

proof fn lema_cadena(docs: Seq<Documento>, pasos: Seq<Paso>)
    requires
        docs.len() == pasos.len() + 1,
        docs[0].fase() == Fase::Borrador,
        docs[0].texto() == Seq::<char>::empty(),
        forall|k: int| 0 <= k < pasos.len() ==> paso_valido(docs[k], #[trigger] pasos[k], docs[k + 1]),
    ensures
        docs.last().fase() == fase_tras(pasos),
        docs.last().texto() == texto_tras(pasos),
    decreases pasos.len(),
{
    if pasos.len() > 0 {
        let n = pasos.len() - 1;
        let d = docs.drop_last();
        let q = pasos.drop_last();
        assert forall|k: int| 0 <= k < q.len() implies paso_valido(d[k], #[trigger] q[k], d[k + 1]) by {
            assert(q[k] == pasos[k] && d[k] == docs[k] && d[k + 1] == docs[k + 1]);
        }
        lema_cadena(d, q);
        assert(paso_valido(docs[n], pasos[n], docs[n + 1]));
        assert(d.last() == docs[n]);
    } else {
        assert(texto_tras(pasos) =~= Seq::<char>::empty());
    }
}

/// The life cycle of a document over any sequence of calls. Start from a
/// new document (`Documento::nuevo`) and apply the calls `pasos` in order,
/// `docs[k + 1]` being what call `k` makes of `docs[k]`: the last document
/// is published exactly when some request for review was later followed by
/// a publishing (publishing a draft does nothing, and nothing unpublishes);
/// it then shows all the text appended, in call order, and before that it
/// shows nothing.
pub proof fn ciclo_de_vida(docs: Seq<Documento>, pasos: Seq<Paso>)
    requires
        docs.len() == pasos.len() + 1,
        docs[0].fase() == Fase::Borrador,
        docs[0].texto() == Seq::<char>::empty(),
        forall|k: int| 0 <= k < pasos.len() ==> paso_valido(docs[k], #[trigger] pasos[k], docs[k + 1]),
    ensures
        docs.last().fase() == Fase::Publicado <==> revisado_y_publicado(pasos),
        docs.last().texto() == texto_tras(pasos),
        contenido_visible(docs.last().fase(), docs.last().texto()) == (if revisado_y_publicado(
            pasos,
        ) {
            texto_tras(pasos)
        } else {
            Seq::<char>::empty()
        }),
{
    lema_cadena(docs, pasos);
    lema_fases(pasos);
}

} // verus!
