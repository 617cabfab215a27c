//! Growable GPU-resident byte regions.

use vstd::prelude::*;

verus! {

/// A region of bytes on the device. Its capacity grows when a write needs
/// more room, and never shrinks. A signed 32-bit number holds it, so that the
/// device can address every byte.
#[derive(Debug, PartialEq, Eq)]
pub struct Buffer {
    id: u32,
    capacity: usize,
}

/// What a [`Buffer`] stands for: the identity the device gave it, and the
/// number of bytes its store holds.
pub struct BufferView {
    pub id: u32,
    pub capacity: nat,
}

impl View for Buffer {
    type V = BufferView;

    closed spec fn view(&self) -> BufferView {
        BufferView { id: self.id, capacity: self.capacity as nat }
    }
}

impl Buffer {
    #[verifier::type_invariant]
    spec fn addressable(&self) -> bool {
        self.capacity <= i32::MAX
    }

    /// The buffer with identity `id` and no store yet.
    pub(crate) fn new(id: u32) -> (buffer: Buffer)
        ensures
            buffer@ == (BufferView { id, capacity: 0 }),
    {
        Buffer { id, capacity: 0 }
    }

    /// The identity that the device gave the buffer.
    pub fn id(&self) -> (id: u32)
        ensures
            id == self@.id,
    {
        self.id
    }

    /// The number of bytes that the buffer's store holds.
    pub fn capacity(&self) -> (capacity: usize)
        ensures
            capacity == self@.capacity,
            capacity <= i32::MAX,
    {
        proof {
            use_type_invariant(self);
        }
        self.capacity
    }

    /// Records that the store was replaced by one of `capacity` bytes.
    pub(crate) fn grow(&mut self, capacity: usize)
        requires
            old(self)@.capacity <= capacity <= i32::MAX,
        ensures
            final(self)@ == (BufferView { id: old(self)@.id, capacity: capacity as nat }),
    {
        self.capacity = capacity;
    }
}

/// A buffer of vertex attribute data.
#[derive(Debug, PartialEq, Eq)]
pub struct VertexBuffer(pub(crate) Buffer);

/// A buffer of index data.
#[derive(Debug, PartialEq, Eq)]
pub struct ElementBuffer(pub(crate) Buffer);

impl View for VertexBuffer {
    type V = BufferView;

    closed spec fn view(&self) -> BufferView {
        self.0@
    }
}

impl View for ElementBuffer {
    type V = BufferView;

    closed spec fn view(&self) -> BufferView {
        self.0@
    }
}

impl VertexBuffer {
    pub(crate) fn new(buffer: Buffer) -> (vertex: VertexBuffer)
        ensures
            vertex@ == buffer@,
    {
        VertexBuffer(buffer)
    }

    /// The underlying buffer.
    pub fn buffer(&self) -> (buffer: &Buffer)
        ensures
            buffer@ == self@,
    {
        &self.0
    }

    /// The underlying buffer, to write to.
    pub fn buffer_mut(&mut self) -> (buffer: &mut Buffer)
        ensures
            buffer@ == old(self)@,
            final(self)@ == final(buffer)@,
    {
        &mut self.0
    }
}

impl ElementBuffer {
    pub(crate) fn new(buffer: Buffer) -> (element: ElementBuffer)
        ensures
            element@ == buffer@,
    {
        ElementBuffer(buffer)
    }

    /// The underlying buffer.
    pub fn buffer(&self) -> (buffer: &Buffer)
        ensures
            buffer@ == self@,
    {
        &self.0
    }

    /// The underlying buffer, to write to.
    pub fn buffer_mut(&mut self) -> (buffer: &mut Buffer)
        ensures
            buffer@ == old(self)@,
            final(self)@ == final(buffer)@,
    {
        &mut self.0
    }
}

} // verus!
