//! Mathematical models of stream items.
//!
//! Every value that travels through a combinator has a *model*: a
//! mathematical value (sequences of characters instead of strings, and so
//! on) that the contracts speak about. [`StreamItem`] adds the two
//! executable operations the combinators need: duplicating an item and
//! deciding whether two items have the same model.

use vstd::prelude::*;

verus! {

/// A value with a mathematical model for use in specifications.
pub trait Modeled: Sized {
    /// The type of the mathematical model.
    type Model;

    /// The model of this value.
    spec fn model(&self) -> Self::Model;
}

/// A stream item: a modeled value that can be duplicated and compared by
/// model equality. Duplication must preserve the model, and comparison
/// must decide exactly model equality.
pub trait StreamItem: Modeled {
    /// Produce a value with the same model.
    fn dup(&self) -> (r: Self)
        ensures
            r.model() == self.model(),
    ;

    /// Decide whether the two values have equal models.
    fn same(&self, other: &Self) -> (r: bool)
        ensures
            r == (self.model() == other.model()),
    ;
}

impl Modeled for bool {
    type Model = bool;

    open spec fn model(&self) -> bool {
        *self
    }
}

impl StreamItem for bool {
    fn dup(&self) -> (r: bool)
        ensures
            r.model() == self.model(),
    {
        *self
    }

    fn same(&self, other: &bool) -> (r: bool)
        ensures
            r == (self.model() == other.model()),
    {
        *self == *other
    }
}

impl Modeled for u8 {
    type Model = u8;

    open spec fn model(&self) -> u8 {
        *self
    }
}

impl StreamItem for u8 {
    fn dup(&self) -> (r: u8)
        ensures
            r.model() == self.model(),
    {
        *self
    }

    fn same(&self, other: &u8) -> (r: bool)
        ensures
            r == (self.model() == other.model()),
    {
        *self == *other
    }
}

impl Modeled for i8 {
    type Model = i8;

    open spec fn model(&self) -> i8 {
        *self
    }
}

impl StreamItem for i8 {
    fn dup(&self) -> (r: i8)
        ensures
            r.model() == self.model(),
    {
        *self
    }

    fn same(&self, other: &i8) -> (r: bool)
        ensures
            r == (self.model() == other.model()),
    {
        *self == *other
    }
}

impl Modeled for String {
    type Model = Seq<char>;

    open spec fn model(&self) -> Seq<char> {
        self@
    }
}

impl StreamItem for String {
    fn dup(&self) -> (r: String)
        ensures
            r.model() == self.model(),
    {
        self.clone()
    }

    fn same(&self, other: &String) -> (r: bool)
        ensures
            r == (self.model() == other.model()),
    {
        self.eq(other)
    }
}

impl<T: Modeled> Modeled for Vec<T> {
    type Model = Seq<T::Model>;

    open spec fn model(&self) -> Seq<T::Model> {
        self@.map_values(|t: T| t.model())
    }
}

impl<T: StreamItem> StreamItem for Vec<T> {
    fn dup(&self) -> (r: Vec<T>)
        ensures
            r.model() == self.model(),
    {
        let mut r: Vec<T> = Vec::new();
        let mut i: usize = 0;
        while i < self.len()
            invariant
                i <= self.len(),
                r@.len() == i,
                forall|j: int| 0 <= j < i ==> r@[j].model() == self@[j].model(),
            decreases self.len() - i,
        {
            r.push(self[i].dup());
            i = i + 1;
        }
        proof {
            assert(r.model() =~= self.model());
        }
        r
    }

    fn same(&self, other: &Vec<T>) -> (r: bool)
        ensures
            r == (self.model() == other.model()),
    {
        if self.len() != other.len() {
            proof {
                assert(self.model().len() == self@.len());
                assert(other.model().len() == other@.len());
            }
            return false;
        }
        let mut i: usize = 0;
        while i < self.len()
            invariant
                i <= self.len(),
                self@.len() == other@.len(),
                forall|j: int| 0 <= j < i ==> self@[j].model() == other@[j].model(),
            decreases self.len() - i,
        {
            if !self[i].same(&other[i]) {
                proof {
                    assert(self.model()[i as int] != other.model()[i as int]);
                }
                return false;
            }
            i = i + 1;
        }
        proof {
            assert(self.model() =~= other.model());
        }
        true
    }
}

impl<T: Modeled> Modeled for Option<T> {
    type Model = Option<T::Model>;

    open spec fn model(&self) -> Option<T::Model> {
        match self {
            Some(v) => Some(v.model()),
            None => None,
        }
    }
}

impl<T: StreamItem> StreamItem for Option<T> {
    fn dup(&self) -> (r: Option<T>)
        ensures
            r.model() == self.model(),
    {
        match self {
            Some(v) => Some(v.dup()),
            None => None,
        }
    }

    fn same(&self, other: &Option<T>) -> (r: bool)
        ensures
            r == (self.model() == other.model()),
    {
        match (self, other) {
            (Some(a), Some(b)) => a.same(b),
            (None, None) => true,
            _ => false,
        }
    }
}

impl<T: Modeled, E: Modeled> Modeled for Result<T, E> {
    type Model = Result<T::Model, E::Model>;

    open spec fn model(&self) -> Result<T::Model, E::Model> {
        match self {
            Ok(v) => Ok(v.model()),
            Err(e) => Err(e.model()),
        }
    }
}

impl<T: StreamItem, E: StreamItem> StreamItem for Result<T, E> {
    fn dup(&self) -> (r: Result<T, E>)
        ensures
            r.model() == self.model(),
    {
        match self {
            Ok(v) => Ok(v.dup()),
            Err(e) => Err(e.dup()),
        }
    }

    fn same(&self, other: &Result<T, E>) -> (r: bool)
        ensures
            r == (self.model() == other.model()),
    {
        match (self, other) {
            (Ok(a), Ok(b)) => a.same(b),
            (Err(a), Err(b)) => a.same(b),
            _ => false,
        }
    }
}

impl<A: Modeled, B: Modeled> Modeled for (A, B) {
    type Model = (A::Model, B::Model);

    open spec fn model(&self) -> (A::Model, B::Model) {
        (self.0.model(), self.1.model())
    }
}

impl<A: StreamItem, B: StreamItem> StreamItem for (A, B) {
    fn dup(&self) -> (r: (A, B))
        ensures
            r.model() == self.model(),
    {
        (self.0.dup(), self.1.dup())
    }

    fn same(&self, other: &(A, B)) -> (r: bool)
        ensures
            r == (self.model() == other.model()),
    {
        self.0.same(&other.0) && self.1.same(&other.1)
    }
}

} // verus!
