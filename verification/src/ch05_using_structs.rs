//! Structs and methods: a security validator and rectangles that can be
//! scaled and consumed.
use vstd::prelude::*;
use crate::texto::{recortado, recortar};

verus! {

/// A unit struct that validates texts.
#[derive(Debug)]
pub struct ValidadorSeguridad;

impl ValidadorSeguridad {
    /// Whether `texto` has any character that is not white space.
    pub fn validar_longitud(&self, texto: &str) -> (r: bool)
        ensures
            r == (recortado(texto@).len() > 0),
    {
        !recortar(texto).is_empty()
    }
}

/// A rectangle given by its width and height.
#[derive(Debug, Clone, Copy, PartialEq, Eq, Structural)]
pub struct Rectangulo {
    pub ancho: u32,
    pub alto: u32,
}

impl Rectangulo {
    /// A rectangle with the given dimensions.
    pub fn nuevo(ancho: u32, alto: u32) -> (r: Self)
        ensures
            r.ancho == ancho,
            r.alto == alto,
    {
        Self { ancho, alto }
    }

    /// A square of side `lado`.
    pub fn cuadrado(lado: u32) -> (r: Self)
        ensures
            r.ancho == lado,
            r.alto == lado,
    {
        Self { ancho: lado, alto: lado }
    }

    /// The area; it must fit in `u32`.
    pub fn area(&self) -> (r: u32)
        requires
            self.ancho * self.alto <= u32::MAX,
        ensures
            r == self.ancho * self.alto,
    {
        self.ancho * self.alto
    }

    /// Whether `self` can hold `otro`: at least as wide and as tall.
    pub fn puede_contener(&self, otro: &Rectangulo) -> (r: bool)
        ensures
            r == (self.ancho >= otro.ancho && self.alto >= otro.alto),
    {
        self.ancho >= otro.ancho && self.alto >= otro.alto
    }

    /// Multiplies both sides by `factor`; both products must fit in `u32`.
    pub fn escalar(&mut self, factor: u32)
        requires
            old(self).ancho * factor <= u32::MAX,
            old(self).alto * factor <= u32::MAX,
        ensures
            final(self).ancho == old(self).ancho * factor,
            final(self).alto == old(self).alto * factor,
    {
        self.ancho = self.ancho * factor;
        self.alto = self.alto * factor;
    }

    /// Consumes the rectangle and returns its area, which must fit in `u32`.
    pub fn transformar_a_area_total(self) -> (r: u32)
        requires
            self.ancho * self.alto <= u32::MAX,
        ensures
            r == self.ancho * self.alto,
    {
        self.ancho * self.alto
    }
}

/// Scaling both sides by `f` multiplies the area by `f * f`.
pub proof fn area_escalada(ancho: int, alto: int, f: int)
    ensures
        (ancho * f) * (alto * f) == (ancho * alto) * (f * f),
{
    assert((ancho * f) * (alto * f) == (ancho * alto) * (f * f)) by (nonlinear_arith);
}

} // verus!
