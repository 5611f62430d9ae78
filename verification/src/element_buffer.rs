//! Element (index) buffers: a GPU-resident array of integer indices, three
//! per triangle. The index type is one of a closed set of unsigned
//! encodings (1, 2 or 4 bytes per index), each convertible losslessly to
//! `u32`; the encoding decides the maximum index a buffer can address.

use crate::context::{same_history, same_live_buffers, GraphicsContext};
use crate::error::CoreError;
use core::marker::PhantomData;
use vstd::prelude::*;

verus! {

/// The unsigned value denoted by a little-endian byte sequence.
pub open spec fn le_bytes_value(bytes: Seq<u8>) -> int
    decreases bytes.len(),
{
    if bytes.len() == 0 {
        0
    } else {
        bytes.first() + 256 * le_bytes_value(bytes.drop_first())
    }
}

/// The basic data type used for each index in an element buffer.
///
/// The three implementors — `u8`, `u16` and `u32` — trade memory for index
/// range: an index wider than the encoding cannot be constructed at all, so
/// no index is ever silently truncated. Each value has an exact byte image
/// (`spec_bytes`), which is what a fill uploads, and widens losslessly to
/// `u32` (`as_u32`).
pub trait ElementBufferDataType: Copy + Sized {
    /// The index widened to 32 bits, bit for bit.
    spec fn spec_as_u32(&self) -> u32;

    /// The little-endian byte image of the index: exactly `byte_width()`
    /// bytes, with no padding.
    spec fn spec_bytes(&self) -> Seq<u8>;

    /// How many bytes one index of this encoding occupies.
    spec fn byte_width() -> nat;

    /// The byte image has exactly the encoding's width.
    proof fn lemma_byte_width(&self)
        ensures
            self.spec_bytes().len() == Self::byte_width(),
    ;

    /// The byte image decodes back to the index value: the encoding loses
    /// nothing.
    proof fn lemma_bytes_decode(&self)
        ensures
            le_bytes_value(self.spec_bytes()) == self.spec_as_u32() as int,
    ;

    /// Converts the index to `u32`.
    fn as_u32(&self) -> (r: u32)
        ensures
            r == self.spec_as_u32(),
    ;

    /// Appends the index's byte image to `out`.
    fn append_bytes(&self, out: &mut Vec<u8>)
        ensures
            final(out)@ == old(out)@ + self.spec_bytes(),
    ;
}

impl ElementBufferDataType for u8 {
    open spec fn spec_as_u32(&self) -> u32 {
        *self as u32
    }

    open spec fn spec_bytes(&self) -> Seq<u8> {
        seq![*self]
    }

    open spec fn byte_width() -> nat {
        1
    }

    proof fn lemma_byte_width(&self) {
    }

    proof fn lemma_bytes_decode(&self) {
        reveal_with_fuel(le_bytes_value, 2);
        assert(self.spec_bytes().drop_first() =~= Seq::<u8>::empty());
    }

    fn as_u32(&self) -> u32 {
        *self as u32
    }

    fn append_bytes(&self, out: &mut Vec<u8>) {
        out.push(*self);
        proof {
            assert(out@ =~= old(out)@ + self.spec_bytes());
        }
    }
}

impl ElementBufferDataType for u16 {
    open spec fn spec_as_u32(&self) -> u32 {
        *self as u32
    }

    open spec fn spec_bytes(&self) -> Seq<u8> {
        seq![(*self & 0xff) as u8, ((*self >> 8) & 0xff) as u8]
    }

    open spec fn byte_width() -> nat {
        2
    }

    proof fn lemma_byte_width(&self) {
    }

    proof fn lemma_bytes_decode(&self) {
        reveal_with_fuel(le_bytes_value, 3);
        let v = *self;
        assert((v & 0xff) < 256 && ((v >> 8) & 0xff) < 256 && (v & 0xff) + 256 * ((v >> 8)
            & 0xff) == v) by (bit_vector);
        let b = self.spec_bytes();
        assert(b.drop_first() =~= seq![((v >> 8) & 0xff) as u8]);
        assert(b.drop_first().drop_first() =~= Seq::<u8>::empty());
    }

    fn as_u32(&self) -> u32 {
        *self as u32
    }

    fn append_bytes(&self, out: &mut Vec<u8>) {
        let v: u16 = *self;
        proof {
            assert((v & 0xff) < 256 && ((v >> 8) & 0xff) < 256) by (bit_vector);
        }
        out.push((v & 0xff) as u8);
        out.push(((v >> 8) & 0xff) as u8);
        proof {
            assert(out@ =~= old(out)@ + self.spec_bytes());
        }
    }
}

impl ElementBufferDataType for u32 {
    open spec fn spec_as_u32(&self) -> u32 {
        *self
    }

    open spec fn spec_bytes(&self) -> Seq<u8> {
        seq![
            (*self & 0xff) as u8,
            ((*self >> 8) & 0xff) as u8,
            ((*self >> 16) & 0xff) as u8,
            ((*self >> 24) & 0xff) as u8,
        ]
    }

    open spec fn byte_width() -> nat {
        4
    }

    proof fn lemma_byte_width(&self) {
    }

    proof fn lemma_bytes_decode(&self) {
        reveal_with_fuel(le_bytes_value, 5);
        let v = *self;
        assert((v & 0xff) < 256 && ((v >> 8) & 0xff) < 256 && ((v >> 16) & 0xff) < 256 && ((v
            >> 24) & 0xff) < 256 && (v & 0xff) + 256 * ((v >> 8) & 0xff) + 65536 * ((v >> 16)
            & 0xff) + 16777216 * ((v >> 24) & 0xff) == v) by (bit_vector);
        let b = self.spec_bytes();
        assert(b.drop_first() =~= seq![
            ((v >> 8) & 0xff) as u8,
            ((v >> 16) & 0xff) as u8,
            ((v >> 24) & 0xff) as u8,
        ]);
        assert(b.drop_first().drop_first() =~= seq![
            ((v >> 16) & 0xff) as u8,
            ((v >> 24) & 0xff) as u8,
        ]);
        assert(b.drop_first().drop_first().drop_first() =~= seq![((v >> 24) & 0xff) as u8]);
        assert(b.drop_first().drop_first().drop_first().drop_first() =~= Seq::<u8>::empty());
    }

    fn as_u32(&self) -> u32 {
        *self
    }

    fn append_bytes(&self, out: &mut Vec<u8>) {
        let v: u32 = *self;
        proof {
            assert((v & 0xff) < 256 && ((v >> 8) & 0xff) < 256 && ((v >> 16) & 0xff) < 256 && ((
            v >> 24) & 0xff) < 256) by (bit_vector);
        }
        out.push((v & 0xff) as u8);
        out.push(((v >> 8) & 0xff) as u8);
        out.push(((v >> 16) & 0xff) as u8);
        out.push(((v >> 24) & 0xff) as u8);
        proof {
            assert(out@ =~= old(out)@ + self.spec_bytes());
        }
    }
}

/// The byte image of a whole element sequence: each element's bytes, in
/// element order, with no padding between them.
pub open spec fn encoded_bytes<T: ElementBufferDataType>(data: Seq<T>) -> Seq<u8>
    decreases data.len(),
{
    if data.len() == 0 {
        Seq::empty()
    } else {
        data.first().spec_bytes() + encoded_bytes(data.drop_first())
    }
}

pub proof fn lemma_encoded_bytes_push<T: ElementBufferDataType>(data: Seq<T>, x: T)
    ensures
        encoded_bytes(data.push(x)) == encoded_bytes(data) + x.spec_bytes(),
    decreases data.len(),
{
    reveal_with_fuel(encoded_bytes, 2);
    if data.len() == 0 {
        assert(data.push(x).drop_first() =~= Seq::<T>::empty());
        assert(encoded_bytes(data.push(x)) =~= encoded_bytes(data) + x.spec_bytes());
    } else {
        lemma_encoded_bytes_push(data.drop_first(), x);
        assert(data.push(x).drop_first() =~= data.drop_first().push(x));
        assert(data.push(x).first() == data.first());
        assert(encoded_bytes(data.push(x)) == data.first().spec_bytes() + encoded_bytes(
            data.drop_first().push(x),
        ));
        assert(encoded_bytes(data.push(x)) =~= encoded_bytes(data) + x.spec_bytes());
    }
}

/// The byte image of `n` elements is exactly `n` times the encoding's
/// width: no element is padded or dropped.
pub proof fn lemma_encoded_bytes_len<T: ElementBufferDataType>(data: Seq<T>)
    ensures
        encoded_bytes(data).len() == data.len() * T::byte_width(),
    decreases data.len(),
{
    if data.len() == 0 {
    } else {
        lemma_encoded_bytes_len(data.drop_first());
        data.first().lemma_byte_width();
        assert(T::byte_width() + (data.len() - 1) * T::byte_width() == data.len()
            * T::byte_width()) by (nonlinear_arith);
    }
}

/// Element `i`'s byte image stands exactly at offset `i * byte_width` in
/// the byte image of the whole sequence: the layout has no padding and
/// keeps element order.
pub proof fn lemma_encoded_bytes_index<T: ElementBufferDataType>(data: Seq<T>, i: int)
    requires
        0 <= i < data.len(),
    ensures
        encoded_bytes(data).subrange(
            i * T::byte_width(),
            (i + 1) * T::byte_width(),
        ) == data[i].spec_bytes(),
    decreases i,
{
    let w = T::byte_width() as int;
    assert(i * T::byte_width() == i * w && (i + 1) * T::byte_width() == (i + 1) * w && (i - 1)
        * T::byte_width() == (i - 1) * w && data.len() * T::byte_width() == data.len() * w && (
    data.len() - 1) * T::byte_width() == (data.len() - 1) * w) by (nonlinear_arith)
        requires
            w == T::byte_width() as int,
    ;
    let head = data.first().spec_bytes();
    let tail = encoded_bytes(data.drop_first());
    data.first().lemma_byte_width();
    lemma_encoded_bytes_len(data);
    lemma_encoded_bytes_len(data.drop_first());
    assert(encoded_bytes(data) == head + tail);
    if i == 0 {
        assert(i * w == 0 && (i + 1) * w == w) by (nonlinear_arith)
            requires
                i == 0,
        ;
        assert(encoded_bytes(data).subrange(0, w) =~= head);
    } else {
        lemma_encoded_bytes_index(data.drop_first(), i - 1);
        assert((i - 1) * w == i * w - w && i * w == (i + 1) * w - w) by (nonlinear_arith);
        assert(0 <= (i - 1) * w && i * w <= tail.len()) by (nonlinear_arith)
            requires
                1 <= i < data.len(),
                w >= 0,
                tail.len() == (data.len() - 1) * w,
        ;
        assert(encoded_bytes(data).subrange(i * w, (i + 1) * w) =~= tail.subrange(
            (i - 1) * w,
            i * w,
        ));
        assert(data.drop_first()[i - 1] == data[i]);
    }
    assert(encoded_bytes(data).subrange(i * w, (i + 1) * w) == data[i].spec_bytes());
}

/// Encodes a slice of elements as the exact byte sequence a fill uploads.
pub fn encode_elements<T: ElementBufferDataType>(data: &[T]) -> (bytes: Vec<u8>)
    ensures
        bytes@ == encoded_bytes(data@),
{
    let mut bytes: Vec<u8> = Vec::new();
    let mut i: usize = 0;
    proof {
        assert(data@.take(0) =~= Seq::<T>::empty());
    }
    while i < data.len()
        invariant
            i <= data@.len(),
            bytes@ == encoded_bytes(data@.take(i as int)),
        decreases data@.len() - i,
    {
        let e = data[i];
        e.append_bytes(&mut bytes);
        proof {
            assert(data@.take(i + 1) =~= data@.take(i as int).push(data@[i as int]));
            lemma_encoded_bytes_push(data@.take(i as int), data@[i as int]);
        }
        i += 1;
    }
    proof {
        assert(data@.take(data@.len() as int) =~= data@);
    }
    bytes
}

/// A buffer containing 3 indices for each triangle to be rendered, also
/// known as an index buffer. The indices refer to places in a set of vertex
/// buffers where the data of the triangle's three vertices is found.
///
/// The buffer owns one buffer object of the graphics context it was created
/// on: the handle is live from creation until [`ElementBuffer::destroy`],
/// which consumes the buffer, so it is released exactly once. The element
/// count always reflects the most recent fill; a fill fully replaces the
/// prior contents.
pub struct ElementBuffer<T: ElementBufferDataType> {
    id: u32,
    count: usize,
    element_type: PhantomData<T>,
}

impl<T: ElementBufferDataType> ElementBuffer<T> {
    /// The handle of the buffer object this buffer owns.
    pub closed spec fn handle(&self) -> u32 {
        self.id
    }

    /// The number of indices the most recent fill stored; 0 before any
    /// fill.
    pub closed spec fn spec_count(&self) -> nat {
        self.count as nat
    }

    /// Creates a new empty element buffer: allocates one fresh buffer
    /// object and stores nothing in it.
    pub fn new<C: GraphicsContext>(context: &mut C) -> (r: Result<Self, CoreError>)
        requires
            old(context).inv(),
        ensures
            final(context).inv(),
            match r {
                Ok(buffer) => {
                    &&& buffer.spec_count() == 0
                    &&& !old(context).live(buffer.handle())
                    &&& final(context).live(buffer.handle())
                    &&& forall|other: u32|
                        other != buffer.handle() ==> #[trigger] final(context).live(other) == old(
                            context,
                        ).live(other)
                    &&& final(context).bound() == old(context).bound()
                    &&& same_history(*old(context), *final(context))
                },
                Err(e) => {
                    &&& e is BufferCreation
                    &&& same_live_buffers(*old(context), *final(context))
                    &&& final(context).bound() == old(context).bound()
                    &&& same_history(*old(context), *final(context))
                },
            },
    {
        match context.create_buffer() {
            Ok(id) => Ok(ElementBuffer { id, count: 0, element_type: PhantomData }),
            Err(message) => Err(CoreError::BufferCreation(message)),
        }
    }

    /// Creates a new element buffer and fills it with the given indices,
    /// which should come three per triangle. An empty slice skips the
    /// upload entirely and leaves the count at 0: some backends reject a
    /// zero-length upload.
    pub fn new_with_data<C: GraphicsContext>(context: &mut C, data: &[T]) -> (r: Result<
        Self,
        CoreError,
    >)
        requires
            old(context).inv(),
        ensures
            final(context).inv(),
            match r {
                Ok(buffer) => {
                    &&& buffer.spec_count() == data@.len()
                    &&& !old(context).live(buffer.handle())
                    &&& final(context).live(buffer.handle())
                    &&& forall|other: u32|
                        other != buffer.handle() ==> #[trigger] final(context).live(other) == old(
                            context,
                        ).live(other)
                    &&& final(context).deletes() == old(context).deletes()
                    &&& if data@.len() == 0 {
                        &&& final(context).upload_targets() == old(context).upload_targets()
                        &&& final(context).upload_payloads() == old(context).upload_payloads()
                        &&& final(context).bound() == old(context).bound()
                        &&& final(context).error_check_count() == old(context).error_check_count()
                    } else {
                        &&& final(context).upload_targets() == old(context).upload_targets().push(
                            buffer.handle(),
                        )
                        &&& final(context).upload_payloads() == old(
                            context,
                        ).upload_payloads().push(encoded_bytes(data@))
                        &&& final(context).bound() is None
                        &&& final(context).error_check_count() == old(
                            context,
                        ).error_check_count() + 1
                    }
                },
                Err(e) => {
                    &&& (e is BufferCreation || e is ContextError)
                    &&& same_live_buffers(*old(context), *final(context))
                    &&& (e is BufferCreation ==> {
                        &&& final(context).bound() == old(context).bound()
                        &&& same_history(*old(context), *final(context))
                    })
                    &&& (e is ContextError ==> {
                        // A buffer was allocated and the upload issued, but the
                        // error check failed; the buffer was then released, so
                        // nothing stays live.
                        &&& final(context).upload_payloads() == old(
                            context,
                        ).upload_payloads().push(encoded_bytes(data@))
                        &&& exists|id: u32|
                            {
                                &&& !old(context).live(id)
                                &&& final(context).upload_targets() == old(
                                    context,
                                ).upload_targets().push(id)
                                &&& final(context).deletes() == old(context).deletes().push(id)
                            }
                        &&& final(context).bound() is None
                        &&& final(context).error_check_count() == old(
                            context,
                        ).error_check_count() + 1
                    })
                },
            },
    {
        let mut buffer = match Self::new(context) {
            Ok(b) => b,
            Err(e) => {
                return Err(e);
            },
        };
        if data.len() > 0 {
            match buffer.fill(context, data) {
                Ok(()) => {},
                Err(e) => {
                    let ghost id = buffer.handle();
                    buffer.destroy(context);
                    proof {
                        assert(!old(context).live(id) && final(context).upload_targets() == old(
                            context,
                        ).upload_targets().push(id) && final(context).deletes() == old(
                            context,
                        ).deletes().push(id));
                    }
                    return Err(e);
                },
            }
        }
        Ok(buffer)
    }

    /// Fills the buffer with the given indices, which should come three
    /// per triangle. The prior contents are fully replaced: the buffer is
    /// bound, the exact byte image of `data` is uploaded, the binding
    /// point is cleared again, the count is set to `data`'s length, and
    /// the context's accumulated error state is checked and surfaced.
    pub fn fill<C: GraphicsContext>(&mut self, context: &mut C, data: &[T]) -> (r: Result<
        (),
        CoreError,
    >)
        requires
            old(context).inv(),
            old(context).live(old(self).handle()),
        ensures
            final(context).inv(),
            final(self).handle() == old(self).handle(),
            final(self).spec_count() == data@.len(),
            final(context).upload_targets() == old(context).upload_targets().push(
                old(self).handle(),
            ),
            final(context).upload_payloads() == old(context).upload_payloads().push(
                encoded_bytes(data@),
            ),
            final(context).bound() is None,
            same_live_buffers(*old(context), *final(context)),
            final(context).deletes() == old(context).deletes(),
            final(context).error_check_count() == old(context).error_check_count() + 1,
            r is Err ==> r->Err_0 is ContextError,
    {
        self.bind(context);
        let bytes = encode_elements(data);
        context.element_buffer_data(bytes.as_slice());
        context.unbind_element_buffer();
        self.count = data.len();
        match context.error_check() {
            Ok(()) => Ok(()),
            Err(message) => Err(CoreError::ContextError(message)),
        }
    }

    /// The number of indices in the buffer.
    pub fn count(&self) -> (n: usize)
        ensures
            n == self.spec_count(),
    {
        self.count
    }

    /// The number of triangles in the buffer: `count() / 3`, by integer
    /// division. Callers are expected to fill the buffer with triangle
    /// lists (a length divisible by 3); a remainder is silently floored,
    /// not rejected.
    pub fn triangle_count(&self) -> (n: usize)
        ensures
            n == self.spec_count() / 3,
    {
        self.count / 3
    }

    /// Binds this buffer to the element-array binding point and leaves it
    /// bound: intended for the draw orchestration that issues the draw
    /// call consuming the indices, which owns the unbind.
    pub fn bind<C: GraphicsContext>(&self, context: &mut C)
        requires
            old(context).inv(),
            old(context).live(self.handle()),
        ensures
            final(context).inv(),
            final(context).bound() == Some(self.handle()),
            same_live_buffers(*old(context), *final(context)),
            same_history(*old(context), *final(context)),
    {
        context.bind_element_buffer(self.id);
    }

    /// Releases the buffer object back to the context. Taking the buffer
    /// by value makes the release happen exactly once: the handle can
    /// neither be used nor released again afterwards.
    pub fn destroy<C: GraphicsContext>(self, context: &mut C)
        requires
            old(context).inv(),
            old(context).live(self.handle()),
        ensures
            final(context).inv(),
            !final(context).live(self.handle()),
            forall|other: u32|
                other != self.handle() ==> #[trigger] final(context).live(other) == old(
                    context,
                ).live(other),
            final(context).deletes() == old(context).deletes().push(self.handle()),
            final(context).upload_targets() == old(context).upload_targets(),
            final(context).upload_payloads() == old(context).upload_payloads(),
            final(context).error_check_count() == old(context).error_check_count(),
            final(context).bound() == (if old(context).bound() == Some(self.handle()) {
                None
            } else {
                old(context).bound()
            }),
    {
        context.delete_buffer(self.id);
    }
}

/// Widening an index to `u32` preserves its value exactly, for every
/// representable value of every encoding: no sign extension, no
/// truncation.
pub proof fn lemma_widening_is_lossless(a: u8, b: u16, c: u32)
    ensures
        a.spec_as_u32() == a as int,
        b.spec_as_u32() == b as int,
        c.spec_as_u32() == c as int,
{
}

/// A triangle list loses nothing to the floor in `triangle_count`: when
/// the index count is divisible by 3, three times the triangle count gives
/// back the index count.
pub proof fn lemma_triangle_list_counts(n: nat)
    requires
        n % 3 == 0,
    ensures
        3 * (n / 3) == n,
{
}

} // verus!
