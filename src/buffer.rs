use vstd::prelude::*;
use std::marker::PhantomData;
use crate::device::{run, DeviceState};
use crate::driver::{
    release_handle, release_step, GlCall, ObjectKind, GL_ARRAY_BUFFER, GL_DYNAMIC_DRAW,
    GL_DYNAMIC_READ, GL_ELEMENT_ARRAY_BUFFER, GL_STATIC_DRAW, GL_STATIC_READ, GL_STREAM_DRAW,
    GL_STREAM_READ,
};

verus! {

/// The kind of a buffer, which fixes the target it binds to.
pub trait BufferTy {
    spec fn target() -> u32;

    fn to_gl_buffer_ty() -> (r: u32)
        ensures
            r == Self::target(),
    ;
}

/// Buffers of indices into a vertex buffer.
pub struct IndexBufferTy;

/// Buffers of vertex data.
pub struct VertexBufferTy;

impl BufferTy for VertexBufferTy {
    open spec fn target() -> u32 {
        GL_ARRAY_BUFFER
    }

    fn to_gl_buffer_ty() -> (r: u32) {
        GL_ARRAY_BUFFER
    }
}

impl BufferTy for IndexBufferTy {
    open spec fn target() -> u32 {
        GL_ELEMENT_ARRAY_BUFFER
    }

    fn to_gl_buffer_ty() -> (r: u32) {
        GL_ELEMENT_ARRAY_BUFFER
    }
}

/// Expected access pattern of a buffer's data: a performance hint only.
#[derive(Clone, Copy, Debug, PartialEq, Eq, Structural)]
pub enum BufferUsageHint {
    DynamicRead,
    DynamicDraw,
    StaticRead,
    StaticDraw,
    StreamRead,
    StreamDraw,
}

impl BufferUsageHint {
    pub open spec fn gl_usage(self) -> u32 {
        match self {
            BufferUsageHint::DynamicRead => GL_DYNAMIC_READ,
            BufferUsageHint::DynamicDraw => GL_DYNAMIC_DRAW,
            BufferUsageHint::StaticRead => GL_STATIC_READ,
            BufferUsageHint::StaticDraw => GL_STATIC_DRAW,
            BufferUsageHint::StreamRead => GL_STREAM_READ,
            BufferUsageHint::StreamDraw => GL_STREAM_DRAW,
        }
    }

    pub fn to_gl_usage_hint(&self) -> (r: u32)
        ensures
            r == self.gl_usage(),
    {
        match *self {
            BufferUsageHint::DynamicRead => GL_DYNAMIC_READ,
            BufferUsageHint::DynamicDraw => GL_DYNAMIC_DRAW,
            BufferUsageHint::StaticRead => GL_STATIC_READ,
            BufferUsageHint::StaticDraw => GL_STATIC_DRAW,
            BufferUsageHint::StreamRead => GL_STREAM_READ,
            BufferUsageHint::StreamDraw => GL_STREAM_DRAW,
        }
    }
}

#[derive(Debug)]
pub struct BufferError {
    pub message: String,
}

/// A driver buffer object, owned by its one handle. Zero means released.
pub struct Buffer<Ty: BufferTy> {
    pub ty: PhantomData<Ty>,
    pub gl_id: u32,
}

/// A buffer made current on its target; uploads go through it.
pub struct BoundBuffer<'a, Ty: BufferTy> {
    pub buffer: &'a mut Buffer<Ty>,
}

/// The calls that make buffer `id` current on `target`.
pub open spec fn buffer_bind_calls(target: u32, id: u32) -> Seq<GlCall> {
    seq![GlCall::BindBuffer { target, buffer: id }]
}

impl<Ty: BufferTy> Buffer<Ty> {
    /// Wraps the handle that the driver returned when asked for a new buffer;
    /// a zero handle means the driver refused.
    pub fn new(gl_id: u32) -> (r: Result<Self, BufferError>)
        ensures
            gl_id == 0 <==> r is Err,
            r matches Ok(b) ==> b.gl_id == gl_id,
            r matches Err(e) ==> e.message@ == "Failed to create GPU buffer"@,
    {
        if gl_id == 0 {
            return Err(BufferError { message: "Failed to create GPU buffer".to_owned() });
        }
        Ok(Buffer { ty: PhantomData, gl_id })
    }

    pub fn bind<'a>(&'a mut self) -> (r: (BoundBuffer<'a, Ty>, Vec<GlCall>))
        ensures
            r.1@ == buffer_bind_calls(Ty::target(), old(self).gl_id),
    {
        let calls = vec![GlCall::BindBuffer { target: Ty::to_gl_buffer_ty(), buffer: self.gl_id }];
        (BoundBuffer { buffer: self }, calls)
    }

    /// Gives up the handle: the first release deletes the buffer, any later
    /// one does nothing.
    pub fn release(&mut self) -> (r: Option<GlCall>)
        ensures
            final(self).gl_id == 0,
            r == release_step(ObjectKind::Buffer, old(self).gl_id).1,
    {
        release_handle(ObjectKind::Buffer, &mut self.gl_id)
    }
}

impl<'a, Ty: BufferTy> BoundBuffer<'a, Ty> {
    /// The call that sizes the buffer's store to exactly `data`
    /// (`size_of::<Datum>() * data.len()` bytes) and fills it from `data`.
    pub fn upload<Datum>(&mut self, data: &[Datum], usage_hint: BufferUsageHint) -> (r: GlCall)
        requires
            vstd::layout::size_of::<Datum>() * data@.len() <= usize::MAX,
        ensures
            r == (GlCall::BufferData {
                target: Ty::target(),
                size: (vstd::layout::size_of::<Datum>() * data@.len()) as usize,
                usage: usage_hint.gl_usage(),
            }),
    {
        let size = std::mem::size_of::<Datum>() * data.len();
        GlCall::BufferData {
            target: Ty::to_gl_buffer_ty(),
            size,
            usage: usage_hint.to_gl_usage_hint(),
        }
    }
}

/// Binding a buffer to its target twice in a row leaves the driver as binding
/// it once does.
pub proof fn lemma_bind_twice(s: DeviceState, target: u32, id: u32)
    ensures
        run(run(s, buffer_bind_calls(target, id)), buffer_bind_calls(target, id)) == run(
            s,
            buffer_bind_calls(target, id),
        ),
{
    reveal_with_fuel(run, 2);
    let c = buffer_bind_calls(target, id);
    assert(run(run(s, c), c).buffers =~= run(s, c).buffers);
}

pub type VertexBuffer = Buffer<VertexBufferTy>;

pub type BoundVertexBuffer<'a> = BoundBuffer<'a, VertexBufferTy>;

pub type IndexBuffer = Buffer<IndexBufferTy>;

pub type BoundIndexBuffer<'a> = BoundBuffer<'a, IndexBufferTy>;

} // verus!
