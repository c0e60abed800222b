//! A recursive cons list kept on the heap with `Box`.
use vstd::prelude::*;

verus! {

/// An immutable singly linked list of integers.
#[derive(Debug, PartialEq)]
pub enum ListaCons {
    Cons(i32, Box<ListaCons>),
    Nil,
}

impl ListaCons {
    /// The elements of the list, front first.
    pub open spec fn elementos(self) -> Seq<i32>
        decreases self,
    {
        match self {
            ListaCons::Cons(v, cola) => seq![v] + cola.elementos(),
            ListaCons::Nil => seq![],
        }
    }

    /// The empty list.
    pub fn nueva() -> (r: Self)
        ensures
            r.elementos() == Seq::<i32>::empty(),
    {
        ListaCons::Nil
    }

    /// The list with `valor` added at the front.
    pub fn prepended(self, valor: i32) -> (r: Self)
        ensures
            r.elementos() == seq![valor] + self.elementos(),
    {
        ListaCons::Cons(valor, Box::new(self))
    }

    /// The number of elements, counted recursively.
    pub fn longitud(&self) -> (r: usize)
        requires
            self.elementos().len() <= usize::MAX,
        ensures
            r == self.elementos().len(),
        decreases self,
    {
        match self {
            ListaCons::Cons(_, cola) => 1 + cola.longitud(),
            ListaCons::Nil => 0,
        }
    }
}

/// Adding an element at the front makes the list one element longer.
pub proof fn anteponer_alarga(l: ListaCons, valor: i32)
    ensures
        ListaCons::Cons(valor, Box::new(l)).elementos().len() == l.elementos().len() + 1,
{
}

} // verus!
