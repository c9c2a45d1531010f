//! Interleaved vertex layouts: the attributes of one vertex, one after the
//! other, and the pointers that describe each of them to the driver.

use vstd::prelude::*;
use crate::gl_enums::{FALSE, TRUE};
use crate::gl_types::{gl_type_size, size_of_gl_type};

verus! {

/// One attribute of a vertex: `count` scalars of type `gl_type`.
#[derive(Clone, Copy, PartialEq, Eq, Structural, Debug)]
pub struct VaoLayoutElement {
    pub count: u8,
    pub gl_type: u32,
    pub normalized: u8,
}

/// What `glVertexAttribPointer` is called with for one attribute.
#[derive(Clone, Copy, PartialEq, Eq, Structural, Debug)]
pub struct AttributePointer {
    pub index: usize,
    pub count: u8,
    pub gl_type: u32,
    pub normalized: u8,
    pub stride: usize,
    pub offset: usize,
}

/// Bytes taken by one attribute; the element's type must be known.
pub open spec fn element_size(e: VaoLayoutElement) -> nat {
    gl_type_size(e.gl_type).unwrap() * (e.count as nat)
}

/// Bytes taken by a run of attributes laid out one after the other.
pub open spec fn layout_span(s: Seq<VaoLayoutElement>) -> nat
    decreases s.len(),
{
    if s.len() == 0 {
        0
    } else {
        layout_span(s.drop_last()) + element_size(s.last())
    }
}

/// Every attribute has a type of known size.
pub open spec fn known_types(s: Seq<VaoLayoutElement>) -> bool {
    forall|i: int| 0 <= i < s.len() ==> (#[trigger] gl_type_size(s[i].gl_type)).is_some()
}

/// The pointer that the attribute at `i` is described by.
pub open spec fn attribute_at(s: Seq<VaoLayoutElement>, i: int) -> AttributePointer {
    AttributePointer {
        index: i as usize,
        count: s[i].count,
        gl_type: s[i].gl_type,
        normalized: s[i].normalized,
        stride: layout_span(s) as usize,
        offset: layout_span(s.take(i)) as usize,
    }
}

proof fn lemma_span_take_step(s: Seq<VaoLayoutElement>, i: int)
    requires
        0 <= i < s.len(),
    ensures
        layout_span(s.take(i + 1)) == layout_span(s.take(i)) + element_size(s[i]),
{
    assert(s.take(i + 1).drop_last() =~= s.take(i));
}

proof fn lemma_span_take_le(s: Seq<VaoLayoutElement>, i: int)
    requires
        0 <= i <= s.len(),
    ensures
        layout_span(s.take(i)) <= layout_span(s),
    decreases s.len() - i,
{
    if i == s.len() {
        assert(s.take(i) =~= s);
    } else {
        lemma_span_take_step(s, i);
        lemma_span_take_le(s, i + 1);
    }
}

/// The attributes of one vertex, in the order of their indices.
pub struct VaoLayout {
    layout: Vec<VaoLayoutElement>,
    stride: usize,
}

impl View for VaoLayout {
    type V = Seq<VaoLayoutElement>;

    closed spec fn view(&self) -> Seq<VaoLayoutElement> {
        self.layout@
    }
}

impl VaoLayout {
    /// The stride is the size of all attributes together, and every
    /// attribute's type is known.
    pub closed spec fn wf(&self) -> bool {
        &&& known_types(self.layout@)
        &&& self.stride as nat == layout_span(self.layout@)
    }

    pub fn new() -> (r: VaoLayout)
        ensures
            r.wf(),
            r@ == Seq::<VaoLayoutElement>::empty(),
            layout_span(r@) == 0,
    {
        VaoLayout { layout: Vec::new(), stride: 0 }
    }

    /// Size in bytes of one vertex.
    pub fn stride(&self) -> (r: usize)
        requires
            self.wf(),
        ensures
            r as nat == layout_span(self@),
    {
        self.stride
    }

    /// Appends an attribute of `count` scalars of type `gl_type`.
    pub fn push_element(&mut self, count: u8, gl_type: u32, normalized: bool)
        requires
            old(self).wf(),
            gl_type_size(gl_type).is_some(),
            layout_span(old(self)@) + gl_type_size(gl_type).unwrap() * (count as nat)
                <= usize::MAX,
        ensures
            final(self).wf(),
            final(self)@ == old(self)@.push(
                VaoLayoutElement { count, gl_type, normalized: if normalized { TRUE } else { FALSE } },
            ),
            layout_span(final(self)@) == layout_span(old(self)@) + gl_type_size(gl_type).unwrap()
                * (count as nat),
    {
        let element = VaoLayoutElement {
            count,
            gl_type,
            normalized: if normalized { TRUE } else { FALSE },
        };
        let size = size_of_gl_type(gl_type).unwrap();
        let ghost before = self.layout@;
        self.layout.push(element);
        proof {
            assert(self.layout@.drop_last() =~= before);
            assert forall|i: int| 0 <= i < self.layout@.len() implies
                (#[trigger] gl_type_size(self.layout@[i].gl_type)).is_some() by {
                if i < before.len() {
                    assert(self.layout@[i] == before[i]);
                }
            }
        }
        self.stride = self.stride + size * (count as usize);
    }

    /// The pointers that describe the layout, from the last attribute to the
    /// first: each with its index, the stride, and its offset in the vertex.
    pub fn attribute_pointers(&self) -> (r: Vec<AttributePointer>)
        requires
            self.wf(),
        ensures
            r@.len() == self@.len(),
            forall|k: int|
                0 <= k < r@.len() ==> #[trigger] r@[k] == attribute_at(self@, self@.len() - 1 - k),
    {
        let size = self.layout.len();
        let mut offset: usize = self.stride;
        let mut r: Vec<AttributePointer> = Vec::new();
        let mut k: usize = 0;
        proof {
            assert(self.layout@.take(size as int) =~= self.layout@);
        }
        while k < size
            invariant
                self.wf(),
                size == self.layout@.len(),
                k <= size,
                r@.len() == k,
                offset as nat == layout_span(self.layout@.take(size - k)),
                forall|j: int|
                    0 <= j < k ==> #[trigger] r@[j] == attribute_at(self.layout@, size - 1 - j),
            decreases size - k,
        {
            let index: usize = size - k - 1;
            let elem = self.layout[index];
            let elem_size = size_of_gl_type(elem.gl_type).unwrap();
            proof {
                assert(gl_type_size(self.layout@[index as int].gl_type).is_some());
                lemma_span_take_step(self.layout@, index as int);
            }
            offset = offset - elem_size * (elem.count as usize);
            proof {
                lemma_span_take_le(self.layout@, index as int);
            }
            r.push(AttributePointer {
                index,
                count: elem.count,
                gl_type: elem.gl_type,
                normalized: elem.normalized,
                stride: self.stride,
                offset,
            });
            k = k + 1;
        }
        r
    }
}

} // verus!
