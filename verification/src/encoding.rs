//! Type-encoding descriptors.
//!
//! The dispatch layer treats type encodings as an opaque format; what it
//! needs of them is structural comparison. A [`Descriptor`] names the shape
//! of an encoded type — a primitive, a pointer to an encoded type, an array
//! of one, or a struct or union of primitive fields — and an [`Encoding`] is
//! anything that can present itself as a descriptor and be compared against
//! another encoding.

use vstd::prelude::*;

verus! {

/// A primitive encoded type.
#[derive(Clone, Copy, PartialEq, Eq, Structural, Debug)]
pub enum Primitive {
    Char,
    Short,
    Int,
    Long,
    LongLong,
    UChar,
    UShort,
    UInt,
    ULong,
    ULongLong,
    Bool,
    Void,
    CString,
    Object,
    Class,
    Sel,
    Unknown,
}

/// The shape of an encoded type.
pub enum Descriptor {
    Primitive(Primitive),
    Pointer(Box<Descriptor>),
    Array(u32, Box<Descriptor>),
    Struct(String, Vec<Primitive>),
    Union(String, Vec<Primitive>),
}

/// Structural equality of descriptors: same shape, same primitive kinds,
/// same array lengths, and — for structs and unions — same name text and
/// same fields.
pub open spec fn spec_desc_eq(a: Descriptor, b: Descriptor) -> bool
    decreases a,
{
    match (a, b) {
        (Descriptor::Primitive(p1), Descriptor::Primitive(p2)) => p1 == p2,
        (Descriptor::Pointer(t1), Descriptor::Pointer(t2)) => spec_desc_eq(*t1, *t2),
        (Descriptor::Array(n1, t1), Descriptor::Array(n2, t2)) => n1 == n2 && spec_desc_eq(
            *t1,
            *t2,
        ),
        (Descriptor::Struct(n1, f1), Descriptor::Struct(n2, f2)) => n1@ == n2@ && f1@ == f2@,
        (Descriptor::Union(n1, f1), Descriptor::Union(n2, f2)) => n1@ == n2@ && f1@ == f2@,
        _ => false,
    }
}

fn primitives_eq(a: &Vec<Primitive>, b: &Vec<Primitive>) -> (r: bool)
    ensures
        r == (a@ == b@),
{
    let n = a.len();
    if n != b.len() {
        proof {
            assert(a@.len() != b@.len());
        }
        return false;
    }
    let mut i: usize = 0;
    while i < n
        invariant
            n == a@.len(),
            n == b@.len(),
            i <= n,
            forall|k: int| 0 <= k < i ==> a@[k] == b@[k],
        decreases n - i,
    {
        if a[i] != b[i] {
            return false;
        }
        i = i + 1;
    }
    proof {
        assert(a@ =~= b@);
    }
    true
}

/// Compares two descriptors structurally.
pub fn descriptor_eq(a: &Descriptor, b: &Descriptor) -> (r: bool)
    ensures
        r == spec_desc_eq(*a, *b),
    decreases *a,
{
    match (a, b) {
        (Descriptor::Primitive(p1), Descriptor::Primitive(p2)) => *p1 == *p2,
        (Descriptor::Pointer(t1), Descriptor::Pointer(t2)) => descriptor_eq(t1, t2),
        (Descriptor::Array(n1, t1), Descriptor::Array(n2, t2)) => *n1 == *n2 && descriptor_eq(
            t1,
            t2,
        ),
        (Descriptor::Struct(n1, f1), Descriptor::Struct(n2, f2)) => *n1 == *n2 && primitives_eq(
            f1,
            f2,
        ),
        (Descriptor::Union(n1, f1), Descriptor::Union(n2, f2)) => *n1 == *n2 && primitives_eq(
            f1,
            f2,
        ),
        _ => false,
    }
}

fn clone_primitives(v: &Vec<Primitive>) -> (r: Vec<Primitive>)
    ensures
        r@ == v@,
{
    let n = v.len();
    let mut r: Vec<Primitive> = Vec::new();
    let mut i: usize = 0;
    while i < n
        invariant
            n == v@.len(),
            i <= n,
            r@ =~= v@.take(i as int),
        decreases n - i,
    {
        r.push(v[i]);
        i = i + 1;
    }
    proof {
        assert(r@ =~= v@);
    }
    r
}

impl Clone for Descriptor {
    /// A structural copy: the clone equals the original structurally.
    fn clone(&self) -> (r: Descriptor)
        ensures
            spec_desc_eq(r, *self),
        decreases *self,
    {
        match self {
            Descriptor::Primitive(p) => Descriptor::Primitive(*p),
            Descriptor::Pointer(t) => Descriptor::Pointer(Box::new((**t).clone())),
            Descriptor::Array(n, t) => Descriptor::Array(*n, Box::new((**t).clone())),
            Descriptor::Struct(n, f) => Descriptor::Struct(n.clone(), clone_primitives(f)),
            Descriptor::Union(n, f) => Descriptor::Union(n.clone(), clone_primitives(f)),
        }
    }
}

/// An encoded type: anything that can present its descriptor and be compared
/// structurally against another encoding.
pub trait Encoding {
    /// The descriptor this encoding presents.
    spec fn spec_descriptor(&self) -> Descriptor;

    /// Hands the descriptor out: a value structurally equal to the one this
    /// encoding presents.
    fn descriptor(&self) -> (r: Descriptor)
        ensures
            spec_desc_eq(r, self.spec_descriptor()),
    ;

    /// Whether this encoding and the given descriptor describe the same
    /// structure.
    fn eq_encoding(&self, other: &Descriptor) -> (r: bool)
        ensures
            r == spec_desc_eq(self.spec_descriptor(), *other),
    ;
}

impl Encoding for Primitive {
    open spec fn spec_descriptor(&self) -> Descriptor {
        Descriptor::Primitive(*self)
    }

    fn descriptor(&self) -> (r: Descriptor) {
        Descriptor::Primitive(*self)
    }

    fn eq_encoding(&self, other: &Descriptor) -> (r: bool) {
        descriptor_eq(&Descriptor::Primitive(*self), other)
    }
}

impl Encoding for Descriptor {
    open spec fn spec_descriptor(&self) -> Descriptor {
        *self
    }

    fn descriptor(&self) -> (r: Descriptor) {
        self.clone()
    }

    fn eq_encoding(&self, other: &Descriptor) -> (r: bool) {
        descriptor_eq(self, other)
    }
}

} // verus!
