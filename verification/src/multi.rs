//! Ordered lists of encodings, and stream comparison against them.
//!
//! An [`Encodings`] value is an ordered list of encoded types — argument
//! lists are tuples of encodings — and an [`EncodingsComparator`] consumes
//! descriptors one at a time. A list equals a comparator's stream when every
//! pending descriptor matches the list element at its position and the
//! stream is exactly as long as the list.

use vstd::prelude::*;

use crate::encoding::spec_desc_eq;
use crate::encoding::Descriptor;
use crate::encoding::Encoding;

verus! {

/// Pairwise structural equality of two descriptor sequences of one length.
pub open spec fn descs_match(a: Seq<Descriptor>, b: Seq<Descriptor>) -> bool {
    a.len() == b.len() && forall|i: int| 0 <= i < a.len() ==> spec_desc_eq(a[i], b[i])
}

/// Structural equality of descriptors is symmetric.
pub proof fn lemma_desc_eq_symmetric(a: Descriptor, b: Descriptor)
    ensures
        spec_desc_eq(a, b) == spec_desc_eq(b, a),
    decreases a,
{
    match (a, b) {
        (Descriptor::Pointer(t1), Descriptor::Pointer(t2)) => lemma_desc_eq_symmetric(*t1, *t2),
        (Descriptor::Array(n1, t1), Descriptor::Array(n2, t2)) => lemma_desc_eq_symmetric(
            *t1,
            *t2,
        ),
        _ => {},
    }
}

/// Structural equality of descriptors is transitive.
pub proof fn lemma_desc_eq_transitive(a: Descriptor, b: Descriptor, c: Descriptor)
    requires
        spec_desc_eq(a, b),
        spec_desc_eq(b, c),
    ensures
        spec_desc_eq(a, c),
    decreases a,
{
    match (a, b, c) {
        (Descriptor::Pointer(t1), Descriptor::Pointer(t2), Descriptor::Pointer(t3)) => {
            lemma_desc_eq_transitive(*t1, *t2, *t3);
        },
        (Descriptor::Array(n1, t1), Descriptor::Array(n2, t2), Descriptor::Array(n3, t3)) => {
            lemma_desc_eq_transitive(*t1, *t2, *t3);
        },
        _ => {},
    }
}

/// Matching against a descriptor tells the same as matching against any
/// descriptor structurally equal to it.
proof fn lemma_desc_eq_substitute(x: Descriptor, d: Descriptor, s: Descriptor)
    requires
        spec_desc_eq(d, s),
    ensures
        spec_desc_eq(x, d) == spec_desc_eq(x, s),
{
    if spec_desc_eq(x, d) {
        lemma_desc_eq_transitive(x, d, s);
    }
    if spec_desc_eq(x, s) {
        lemma_desc_eq_symmetric(d, s);
        lemma_desc_eq_transitive(x, s, d);
    }
}

/// A consumer of a descriptor stream, compared one descriptor at a time.
pub trait EncodingsComparator {
    /// The descriptors not yet consumed, in order.
    spec fn spec_remaining(&self) -> Seq<Descriptor>;

    /// Consumes the next pending descriptor and tells whether it matches the
    /// given one; with nothing pending, answers false and consumes nothing.
    fn eq_next(&mut self, other: &Descriptor) -> (r: bool)
        ensures
            r == (old(self).spec_remaining().len() > 0 && spec_desc_eq(
                old(self).spec_remaining()[0],
                *other,
            )),
            final(self).spec_remaining() == (if old(self).spec_remaining().len() > 0 {
                old(self).spec_remaining().drop_first()
            } else {
                old(self).spec_remaining()
            }),
    ;

    /// Whether every pending descriptor has been consumed.
    fn is_finished(&self) -> (r: bool)
        ensures
            r == (self.spec_remaining().len() == 0),
    ;
}

/// An ordered list of encodings; argument lists are tuples of encodings.
pub trait Encodings {
    /// The descriptors of the listed encodings, in order.
    spec fn spec_encs(&self) -> Seq<Descriptor>;

    /// How many encodings the list holds.
    fn len(&self) -> (r: u8)
        ensures
            r as int == self.spec_encs().len(),
    ;

    /// Whether the encoding at the given position matches the given
    /// descriptor; positions past the end match nothing.
    fn encoding_at_eq(&self, index: u8, other: &Descriptor) -> (r: bool)
        ensures
            r == ((index as int) < self.spec_encs().len() && spec_desc_eq(
                self.spec_encs()[index as int],
                *other,
            )),
    ;

    /// Whether the comparator's pending descriptors match this list exactly:
    /// element by element, with nothing left over.
    fn eq<C: EncodingsComparator>(&self, fields: C) -> (r: bool)
        ensures
            r == descs_match(fields.spec_remaining(), self.spec_encs()),
    ;
}

impl Encodings for () {
    open spec fn spec_encs(&self) -> Seq<Descriptor> {
        Seq::empty()
    }

    fn len(&self) -> (r: u8) {
        0
    }

    fn encoding_at_eq(&self, index: u8, other: &Descriptor) -> (r: bool) {
        false
    }

    fn eq<C: EncodingsComparator>(&self, fields: C) -> (r: bool) {
        let f = fields;
        f.is_finished()
    }
}

impl<A: Encoding> Encodings for (A,) {
    open spec fn spec_encs(&self) -> Seq<Descriptor> {
        seq![self.0.spec_descriptor()]
    }

    fn len(&self) -> (r: u8) {
        1
    }

    fn encoding_at_eq(&self, index: u8, other: &Descriptor) -> (r: bool) {
        if index == 0 {
            self.0.eq_encoding(other)
        } else {
            false
        }
    }

    fn eq<C: EncodingsComparator>(&self, fields: C) -> (r: bool) {
        let ghost r0 = fields.spec_remaining();
        let mut f = fields;
        let d0 = self.0.descriptor();
        let m0 = f.eq_next(&d0);
        proof {
            if r0.len() > 0 {
                lemma_desc_eq_substitute(r0[0], d0, self.0.spec_descriptor());
            }
        }
        if !m0 {
            return false;
        }
        let fin = f.is_finished();
        proof {
            if fin {
                assert(r0.len() == 1);
                assert(descs_match(r0, self.spec_encs()));
            }
        }
        fin
    }
}

impl<A: Encoding, B: Encoding> Encodings for (A, B) {
    open spec fn spec_encs(&self) -> Seq<Descriptor> {
        seq![self.0.spec_descriptor(), self.1.spec_descriptor()]
    }

    fn len(&self) -> (r: u8) {
        2
    }

    fn encoding_at_eq(&self, index: u8, other: &Descriptor) -> (r: bool) {
        if index == 0 {
            self.0.eq_encoding(other)
        } else if index == 1 {
            self.1.eq_encoding(other)
        } else {
            false
        }
    }

    fn eq<C: EncodingsComparator>(&self, fields: C) -> (r: bool) {
        let ghost r0 = fields.spec_remaining();
        let mut f = fields;
        let d0 = self.0.descriptor();
        let m0 = f.eq_next(&d0);
        proof {
            if r0.len() > 0 {
                lemma_desc_eq_substitute(r0[0], d0, self.0.spec_descriptor());
            }
        }
        if !m0 {
            return false;
        }
        let ghost r1 = f.spec_remaining();
        let d1 = self.1.descriptor();
        let m1 = f.eq_next(&d1);
        proof {
            if r1.len() > 0 {
                lemma_desc_eq_substitute(r1[0], d1, self.1.spec_descriptor());
                assert(r1[0] == r0[1]);
            }
        }
        if !m1 {
            return false;
        }
        let fin = f.is_finished();
        proof {
            if fin {
                assert(r0.len() == 2);
                assert(descs_match(r0, self.spec_encs()));
            }
        }
        fin
    }
}

impl<A: Encoding, B: Encoding, C2: Encoding> Encodings for (A, B, C2) {
    open spec fn spec_encs(&self) -> Seq<Descriptor> {
        seq![self.0.spec_descriptor(), self.1.spec_descriptor(), self.2.spec_descriptor()]
    }

    fn len(&self) -> (r: u8) {
        3
    }

    fn encoding_at_eq(&self, index: u8, other: &Descriptor) -> (r: bool) {
        if index == 0 {
            self.0.eq_encoding(other)
        } else if index == 1 {
            self.1.eq_encoding(other)
        } else if index == 2 {
            self.2.eq_encoding(other)
        } else {
            false
        }
    }

    fn eq<C: EncodingsComparator>(&self, fields: C) -> (r: bool) {
        let ghost r0 = fields.spec_remaining();
        let mut f = fields;
        let d0 = self.0.descriptor();
        let m0 = f.eq_next(&d0);
        proof {
            if r0.len() > 0 {
                lemma_desc_eq_substitute(r0[0], d0, self.0.spec_descriptor());
            }
        }
        if !m0 {
            return false;
        }
        let ghost r1 = f.spec_remaining();
        let d1 = self.1.descriptor();
        let m1 = f.eq_next(&d1);
        proof {
            if r1.len() > 0 {
                lemma_desc_eq_substitute(r1[0], d1, self.1.spec_descriptor());
                assert(r1[0] == r0[1]);
            }
        }
        if !m1 {
            return false;
        }
        let ghost r2 = f.spec_remaining();
        let d2 = self.2.descriptor();
        let m2 = f.eq_next(&d2);
        proof {
            if r2.len() > 0 {
                lemma_desc_eq_substitute(r2[0], d2, self.2.spec_descriptor());
                assert(r2[0] == r0[2]);
            }
        }
        if !m2 {
            return false;
        }
        let fin = f.is_finished();
        proof {
            if fin {
                assert(r0.len() == 3);
                assert(descs_match(r0, self.spec_encs()));
            }
        }
        fin
    }
}

impl<A: Encoding, B: Encoding, C2: Encoding, D: Encoding> Encodings for (A, B, C2, D) {
    open spec fn spec_encs(&self) -> Seq<Descriptor> {
        seq![
            self.0.spec_descriptor(),
            self.1.spec_descriptor(),
            self.2.spec_descriptor(),
            self.3.spec_descriptor(),
        ]
    }

    fn len(&self) -> (r: u8) {
        4
    }

    fn encoding_at_eq(&self, index: u8, other: &Descriptor) -> (r: bool) {
        if index == 0 {
            self.0.eq_encoding(other)
        } else if index == 1 {
            self.1.eq_encoding(other)
        } else if index == 2 {
            self.2.eq_encoding(other)
        } else if index == 3 {
            self.3.eq_encoding(other)
        } else {
            false
        }
    }

    fn eq<C: EncodingsComparator>(&self, fields: C) -> (r: bool) {
        let ghost r0 = fields.spec_remaining();
        let mut f = fields;
        let d0 = self.0.descriptor();
        let m0 = f.eq_next(&d0);
        proof {
            if r0.len() > 0 {
                lemma_desc_eq_substitute(r0[0], d0, self.0.spec_descriptor());
            }
        }
        if !m0 {
            return false;
        }
        let ghost r1 = f.spec_remaining();
        let d1 = self.1.descriptor();
        let m1 = f.eq_next(&d1);
        proof {
            if r1.len() > 0 {
                lemma_desc_eq_substitute(r1[0], d1, self.1.spec_descriptor());
                assert(r1[0] == r0[1]);
            }
        }
        if !m1 {
            return false;
        }
        let ghost r2 = f.spec_remaining();
        let d2 = self.2.descriptor();
        let m2 = f.eq_next(&d2);
        proof {
            if r2.len() > 0 {
                lemma_desc_eq_substitute(r2[0], d2, self.2.spec_descriptor());
                assert(r2[0] == r0[2]);
            }
        }
        if !m2 {
            return false;
        }
        let ghost r3 = f.spec_remaining();
        let d3 = self.3.descriptor();
        let m3 = f.eq_next(&d3);
        proof {
            if r3.len() > 0 {
                lemma_desc_eq_substitute(r3[0], d3, self.3.spec_descriptor());
                assert(r3[0] == r0[3]);
            }
        }
        if !m3 {
            return false;
        }
        let fin = f.is_finished();
        proof {
            if fin {
                assert(r0.len() == 4);
                assert(descs_match(r0, self.spec_encs()));
            }
        }
        fin
    }
}

/// A comparator that walks an encoding list from the front.
pub struct EncodingTupleComparator<'a, T: Encodings> {
    encs: &'a T,
    index: u8,
}

impl<'a, T: Encodings> EncodingTupleComparator<'a, T> {
    /// A comparator with the whole list still pending.
    pub fn new(encs: &'a T) -> (r: EncodingTupleComparator<'a, T>)
        ensures
            r.spec_remaining() == encs.spec_encs(),
    {
        let r = EncodingTupleComparator { encs, index: 0 };
        proof {
            assert(r.spec_remaining() =~= encs.spec_encs());
        }
        r
    }
}

impl<'a, T: Encodings> EncodingsComparator for EncodingTupleComparator<'a, T> {
    closed spec fn spec_remaining(&self) -> Seq<Descriptor> {
        if self.index as int <= self.encs.spec_encs().len() {
            self.encs.spec_encs().skip(self.index as int)
        } else {
            Seq::empty()
        }
    }

    fn eq_next(&mut self, other: &Descriptor) -> (r: bool) {
        let ghost pre = *self;
        let index = self.index;
        let n = self.encs.len();
        if index < n {
            self.index = index + 1;
            let r = self.encs.encoding_at_eq(index, other);
            proof {
                let all = self.encs.spec_encs();
                assert(pre.spec_remaining() == all.skip(index as int));
                assert(all.skip(index as int)[0] == all[index as int]);
                assert(self.spec_remaining() =~= pre.spec_remaining().drop_first());
            }
            r
        } else {
            proof {
                assert(self.spec_remaining().len() == 0);
            }
            false
        }
    }

    fn is_finished(&self) -> (r: bool) {
        self.index >= self.encs.len()
    }
}

} // verus!
