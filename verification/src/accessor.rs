//! Walking one attribute through a buffer of interleaved vertices.

use vstd::prelude::*;
use vstd::slice::slice_subrange;

verus! {

/// The mathematical picture of a [`VertexAttributeIter`].
#[verifier::ext_equal]
pub struct AttributeWalk {
    /// The bytes of the vertices that are still to come.
    pub bytes: Seq<u8>,
    /// Where in a vertex the attribute starts.
    pub offset: int,
    /// Where in a vertex the attribute ends.
    pub end: int,
    /// The number of bytes from one vertex to the next.
    pub vertex_size: int,
}

impl AttributeWalk {
    /// Whether [`VertexAttributeIter::next`] can take its step: either no
    /// vertex is left, or the attribute and a whole stride lie in what is
    /// left.
    pub open spec fn can_advance(self) -> bool {
        self.bytes.len() == 0 || (self.offset <= self.end <= self.bytes.len() && self.vertex_size
            <= self.bytes.len())
    }

    /// The bytes of the attribute in the vertex at the front.
    pub open spec fn front(self) -> Seq<u8> {
        self.bytes.subrange(self.offset, self.end)
    }

    /// The walk with the vertex at the front left behind.
    pub open spec fn advanced(self) -> AttributeWalk {
        AttributeWalk {
            bytes: self.bytes.subrange(self.vertex_size, self.bytes.len() as int),
            ..self
        }
    }

    /// The walk goes over whole vertices, each of which holds the
    /// attribute.
    pub open spec fn regular(self) -> bool {
        &&& 0 < self.vertex_size
        &&& 0 <= self.offset <= self.end <= self.vertex_size
        &&& self.bytes.len() % (self.vertex_size as nat) == 0
    }
}

/// Yields, vertex by vertex, the bytes of one attribute.
pub struct VertexAttributeIter<'a> {
    buffer: &'a [u8],
    attribute_data_offset: usize,
    attribute_data_end: usize,
    vertex_size: usize,
}

impl<'a> View for VertexAttributeIter<'a> {
    type V = AttributeWalk;

    closed spec fn view(&self) -> AttributeWalk {
        AttributeWalk {
            bytes: self.buffer@,
            offset: self.attribute_data_offset as int,
            end: self.attribute_data_end as int,
            vertex_size: self.vertex_size as int,
        }
    }
}

impl<'a> VertexAttributeIter<'a> {
    /// A walk over `buffer`, whose vertices are `vertex_size` bytes apart,
    /// for the attribute of `attribute_size` bytes that lies
    /// `vertex_offset` bytes into each vertex.
    pub fn new(
        buffer: &'a [u8],
        vertex_size: usize,
        vertex_offset: usize,
        attribute_size: usize,
    ) -> (iter: VertexAttributeIter<'a>)
        requires
            vertex_offset + attribute_size <= usize::MAX,
        ensures
            iter@ == (AttributeWalk {
                bytes: buffer@,
                offset: vertex_offset as int,
                end: vertex_offset + attribute_size,
                vertex_size: vertex_size as int,
            }),
    {
        let attribute_data_offset: usize = vertex_offset;
        let attribute_data_end: usize = attribute_data_offset + attribute_size;
        VertexAttributeIter { buffer, attribute_data_offset, attribute_data_end, vertex_size }
    }

    /// Whether [`next`](Self::next) can take its step.
    pub fn can_advance(&self) -> (ok: bool)
        ensures
            ok == self@.can_advance(),
    {
        let len: usize = self.buffer.len();
        len == 0 || (self.attribute_data_offset <= self.attribute_data_end
            && self.attribute_data_end <= len && self.vertex_size <= len)
    }

    /// The number of bytes from one vertex to the next.
    pub fn vertex_size(&self) -> (size: usize)
        ensures
            size == self@.vertex_size,
    {
        self.vertex_size
    }

    /// The attribute's bytes in the next vertex, or `None` when no vertex
    /// is left.
    pub fn next(&mut self) -> (item: Option<&'a [u8]>)
        requires
            old(self)@.can_advance(),
        ensures
            old(self)@.bytes.len() == 0 ==> item.is_none() && final(self)@ == old(self)@,
            old(self)@.bytes.len() != 0 ==> item.is_some() && item.unwrap()@ == old(self)@.front()
                && final(self)@ == old(self)@.advanced(),
    {
        if self.buffer.len() == 0 {
            return None;
        }
        let attribute_byte_data = slice_subrange(
            self.buffer,
            self.attribute_data_offset,
            self.attribute_data_end,
        );
        self.buffer = slice_subrange(self.buffer, self.vertex_size, self.buffer.len());
        Some(attribute_byte_data)
    }

    /// The number of vertices that are still to come, as lower and upper
    /// bound.
    pub fn size_hint(&self) -> (hint: (usize, Option<usize>))
        requires
            self@.vertex_size > 0,
        ensures
            hint.0 == self@.bytes.len() / (self@.vertex_size as nat),
            hint.1 == Some(hint.0),
    {
        let remaining: usize = self.buffer.len() / self.vertex_size;
        (remaining, Some(remaining))
    }
}

/// A walk over whole vertices never gets stuck: it can always take its
/// step, stays a walk over whole vertices, and each step takes one from
/// the count of vertices to come.
pub proof fn lemma_regular_walk_advances(w: AttributeWalk)
    requires
        w.regular(),
    ensures
        w.can_advance(),
        w.bytes.len() != 0 ==> w.advanced().regular() && w.advanced().bytes.len() / (
        w.vertex_size as nat) + 1 == w.bytes.len() / (w.vertex_size as nat),
{
    let n = w.bytes.len() as int;
    let v = w.vertex_size;
    if n != 0 {
        vstd::arithmetic::div_mod::lemma_fundamental_div_mod(n, v);
        assert(n / v >= 1) by (nonlinear_arith)
            requires
                n == v * (n / v) + 0,
                n > 0,
                v > 0,
        ;
        assert(n >= v) by (nonlinear_arith)
            requires
                n == v * (n / v),
                n / v >= 1,
                v > 0,
        ;
        vstd::arithmetic::div_mod::lemma_mod_sub_multiples_vanish(n, v);
        vstd::arithmetic::div_mod::lemma_div_plus_one(n - v, v);
    }
}

} // verus!
