use vstd::prelude::*;

use crate::handles::BufferHandle;

verus! {

/// What a GPU buffer is used for.
#[derive(Clone, Copy, Debug, PartialEq, Eq, Structural)]
pub enum BufferUsage {
    /// A uniform buffer that can be written again.
    Uniform,
    /// Per-instance vertex data that can be written again.
    Instance,
    Vertex,
    Index,
}

/// A GPU buffer together with the host copy of what was last written to it.
/// `len` is the number of elements it was created with.
pub struct Buffer<T> {
    handle: BufferHandle,
    usage: BufferUsage,
    content: Vec<T>,
    len: u32,
}

pub struct BufferView<T> {
    pub handle: BufferHandle,
    pub usage: BufferUsage,
    pub content: Seq<T>,
    pub len: u32,
}

impl<T> View for Buffer<T> {
    type V = BufferView<T>;

    closed spec fn view(&self) -> BufferView<T> {
        BufferView { handle: self.handle, usage: self.usage, content: self.content@, len: self.len }
    }
}

impl<T> Buffer<T> {
    /// A buffer created with `content`, or empty.
    pub fn new(handle: BufferHandle, usage: BufferUsage, content: Option<Vec<T>>) -> (r: Buffer<T>)
        requires
            content matches Some(c) ==> c@.len() <= u32::MAX,
        ensures
            r@.handle == handle,
            r@.usage == usage,
            r@.content == match content {
                Some(c) => c@,
                None => Seq::<T>::empty(),
            },
            r@.len == r@.content.len(),
    {
        let content = match content {
            Some(c) => c,
            None => Vec::new(),
        };
        let len = content.len() as u32;
        Buffer { handle, usage, content, len }
    }

    /// Replaces the host copy with what is written to the buffer.
    pub fn upload(&mut self, content: Vec<T>)
        ensures
            final(self)@ == (BufferView { content: content@, ..old(self)@ }),
    {
        self.content = content;
    }

    pub fn buffer(&self) -> (r: BufferHandle)
        ensures
            r == self@.handle,
    {
        self.handle
    }

    pub fn usage(&self) -> (r: BufferUsage)
        ensures
            r == self@.usage,
    {
        self.usage
    }

    pub fn len(&self) -> (r: u32)
        ensures
            r == self@.len,
    {
        self.len
    }

    pub fn content(&self) -> (r: &[T])
        ensures
            r@ == self@.content,
    {
        self.content.as_slice()
    }
}

} // verus!
