use vstd::prelude::*;
use crate::buffer::{BoundIndexBuffer, BoundVertexBuffer};
use crate::device::{bound_buffer, lemma_run_append, run, step, AttribLayout, DeviceState};
use crate::driver::{
    release_handle, release_step, GlCall, ObjectKind, GL_FLOAT, GL_LINES, GL_POINTS,
    GL_ARRAY_BUFFER, GL_TRIANGLES, GL_TRIANGLE_STRIP, GL_UNSIGNED_INT,
};

verus! {

/// Shape of one vertex attribute: one to four 32-bit floats.
#[derive(Clone, Copy, Debug, PartialEq, Eq, Structural)]
pub enum VertexAttribTy {
    Float,
    FloatVec2,
    FloatVec3,
    FloatVec4,
}

impl VertexAttribTy {
    pub open spec fn components(self) -> u32 {
        match self {
            VertexAttribTy::Float => 1,
            VertexAttribTy::FloatVec2 => 2,
            VertexAttribTy::FloatVec3 => 3,
            VertexAttribTy::FloatVec4 => 4,
        }
    }
}

/// One vertex attribute: its shape, its byte offset within a vertex, and
/// whether the driver normalizes it.
#[derive(Clone, Copy, Debug, PartialEq, Eq, Structural)]
pub struct VertexAttrib {
    pub ty: VertexAttribTy,
    pub offset: usize,
    pub normalized: bool,
}

/// Primitive topology of a draw.
#[derive(Clone, Copy, Debug, PartialEq, Eq, Structural)]
pub enum DrawTy {
    Points,
    Lines,
    Triangles,
    TriangleStrip,
}

impl DrawTy {
    pub open spec fn gl_mode(self) -> u32 {
        match self {
            DrawTy::Points => GL_POINTS,
            DrawTy::Lines => GL_LINES,
            DrawTy::Triangles => GL_TRIANGLES,
            DrawTy::TriangleStrip => GL_TRIANGLE_STRIP,
        }
    }

    pub fn to_gl_draw_ty(&self) -> (r: u32)
        ensures
            r == self.gl_mode(),
    {
        match *self {
            DrawTy::Points => GL_POINTS,
            DrawTy::Lines => GL_LINES,
            DrawTy::Triangles => GL_TRIANGLES,
            DrawTy::TriangleStrip => GL_TRIANGLE_STRIP,
        }
    }
}

#[derive(Debug)]
pub struct VertexArrayError {
    pub message: String,
}

/// A driver vertex-array object, owned by its one handle. Zero means released.
pub struct VertexArray {
    pub gl_id: u32,
}

/// A vertex array made current, together with the vertex buffer that its
/// attribute layout reads from.
pub struct BoundVertexArray<'a> {
    pub vertex_array: &'a mut VertexArray,
    pub vertex_buffer: BoundVertexBuffer<'a>,
}

/// The calls that make vertex array `id` current.
pub open spec fn vertex_array_bind_calls(id: u32) -> Seq<GlCall> {
    seq![GlCall::BindVertexArray { array: id }]
}

/// The pointer call that declares `attrib` in slot `index`.
pub open spec fn attrib_pointer_call(index: u32, stride: usize, attrib: VertexAttrib) -> GlCall {
    GlCall::VertexAttribPointer {
        index,
        size: attrib.ty.components(),
        data_type: GL_FLOAT,
        normalized: attrib.normalized,
        stride,
        offset: attrib.offset,
    }
}

/// `calls` declare `attribs` in slots 0, 1, 2, ... in order: for each one,
/// the slot is enabled, then its layout is set.
pub open spec fn attrib_calls(calls: Seq<GlCall>, stride: usize, attribs: Seq<VertexAttrib>) -> bool {
    &&& calls.len() == 2 * attribs.len()
    &&& forall|i: int|
        0 <= i < attribs.len() ==> {
            &&& #[trigger] calls[2 * i] == GlCall::EnableVertexAttribArray { index: i as u32 }
            &&& calls[2 * i + 1] == attrib_pointer_call(i as u32, stride, attribs[i])
        }
}

impl VertexArray {
    /// Wraps the handle that the driver returned when asked for a new vertex
    /// array; a zero handle means the driver refused.
    pub fn new(gl_id: u32) -> (r: Result<VertexArray, VertexArrayError>)
        ensures
            gl_id == 0 <==> r is Err,
            r matches Ok(v) ==> v.gl_id == gl_id,
            r matches Err(e) ==> e.message@ == "Failed to create GPU vertex array"@,
    {
        if gl_id == 0 {
            return Err(
                VertexArrayError { message: "Failed to create GPU vertex array".to_owned() },
            );
        }
        Ok(VertexArray { gl_id })
    }

    /// Makes this array current over `vertex_buffer`, which the caller has
    /// bound already.
    pub fn bind<'a>(&'a mut self, vertex_buffer: BoundVertexBuffer<'a>) -> (r: (
        BoundVertexArray<'a>,
        Vec<GlCall>,
    ))
        ensures
            *r.0.vertex_array == *old(self),
            *final(self) == *final(r.0.vertex_array),
            r.1@ == vertex_array_bind_calls(old(self).gl_id),
    {
        BoundVertexArray::new(self, vertex_buffer)
    }

    /// Gives up the handle: the first release deletes the vertex array, any
    /// later one does nothing.
    pub fn release(&mut self) -> (r: Option<GlCall>)
        ensures
            final(self).gl_id == 0,
            r == release_step(ObjectKind::VertexArray, old(self).gl_id).1,
    {
        release_handle(ObjectKind::VertexArray, &mut self.gl_id)
    }
}

impl<'a> BoundVertexArray<'a> {
    pub fn new(vertex_array: &'a mut VertexArray, vertex_buffer: BoundVertexBuffer<'a>) -> (r: (
        Self,
        Vec<GlCall>,
    ))
        ensures
            *r.0.vertex_array == *old(vertex_array),
            *final(vertex_array) == *final(r.0.vertex_array),
            r.1@ == vertex_array_bind_calls(old(vertex_array).gl_id),
    {
        let calls = vec![GlCall::BindVertexArray { array: vertex_array.gl_id }];
        (BoundVertexArray { vertex_array, vertex_buffer }, calls)
    }

    /// Declares the attribute layout of the current vertex array over the
    /// bound vertex buffer: `attribs[i]` goes to slot `i`, `stride` bytes
    /// separate consecutive vertices, and every component is a 32-bit float.
    pub fn set_vertex_attribs(&mut self, stride: usize, attribs: &[VertexAttrib]) -> (r: Vec<
        GlCall,
    >)
        requires
            attribs@.len() <= u32::MAX,
        ensures
            attrib_calls(r@, stride, attribs@),
    {
        let mut calls: Vec<GlCall> = Vec::new();
        let mut i: usize = 0;
        while i < attribs.len()
            invariant
                i <= attribs@.len() <= u32::MAX,
                attrib_calls(calls@, stride, attribs@.take(i as int)),
            decreases attribs@.len() - i,
        {
            let attrib = attribs[i];
            let size: u32 = match attrib.ty {
                VertexAttribTy::Float => 1,
                VertexAttribTy::FloatVec2 => 2,
                VertexAttribTy::FloatVec3 => 3,
                VertexAttribTy::FloatVec4 => 4,
            };
            let ghost before = calls@;
            calls.push(GlCall::EnableVertexAttribArray { index: i as u32 });
            calls.push(
                GlCall::VertexAttribPointer {
                    index: i as u32,
                    size,
                    data_type: GL_FLOAT,
                    normalized: attrib.normalized,
                    stride,
                    offset: attrib.offset,
                },
            );
            proof {
                let next = attribs@.take(i + 1);
                assert forall|k: int| 0 <= k < next.len() implies {
                    &&& #[trigger] calls@[2 * k] == GlCall::EnableVertexAttribArray {
                        index: k as u32,
                    }
                    &&& calls@[2 * k + 1] == attrib_pointer_call(k as u32, stride, next[k])
                } by {
                    if k < i {
                        assert(before[2 * k] == GlCall::EnableVertexAttribArray {
                            index: k as u32,
                        });
                    }
                }
            }
            i = i + 1;
        }
        assert(attribs@.take(attribs@.len() as int) =~= attribs@);
        calls
    }

    /// A non-indexed draw of `count` vertices from vertex `first`.
    pub fn draw_arrays(&mut self, draw_ty: DrawTy, first: usize, count: usize) -> (r: GlCall)
        ensures
            r == (GlCall::DrawArrays { mode: draw_ty.gl_mode(), first, count }),
    {
        GlCall::DrawArrays { mode: draw_ty.to_gl_draw_ty(), first, count }
    }

    /// An indexed draw of `count` 32-bit indices, read from the start of the
    /// bound `index_buffer`.
    pub fn draw_elements<'b>(
        &mut self,
        draw_ty: DrawTy,
        index_buffer: BoundIndexBuffer<'b>,
        count: usize,
    ) -> (r: GlCall)
        ensures
            r == (GlCall::DrawElements {
                mode: draw_ty.gl_mode(),
                count,
                index_type: GL_UNSIGNED_INT,
                offset: 0,
            }),
    {
        GlCall::DrawElements {
            mode: draw_ty.to_gl_draw_ty(),
            count,
            index_type: GL_UNSIGNED_INT,
            offset: 0,
        }
    }
}

/// The layout that `attrib` declares over `buffer`.
pub open spec fn declared_layout(attrib: VertexAttrib, stride: usize, buffer: u32) -> AttribLayout {
    AttribLayout {
        buffer,
        size: attrib.ty.components(),
        data_type: GL_FLOAT,
        normalized: attrib.normalized,
        stride: stride as nat,
        offset: attrib.offset as nat,
    }
}

/// Slots `0 .. n` of vertex array `array`.
pub open spec fn first_slots(array: u32, n: nat) -> Set<(u32, u32)> {
    Set::new(|k: (u32, u32)| k.0 == array && k.1 < n)
}

/// Declaring `attribs` over the current vertex array sets exactly its slots
/// `0 .. attribs.len()`: slot `i` is enabled and reads `attribs[i]` with the
/// given stride from the vertex buffer bound at the time; every other slot
/// keeps what it had, and the bindings stay as they were.
pub proof fn lemma_attribs_declared(
    s: DeviceState,
    calls: Seq<GlCall>,
    stride: usize,
    attribs: Seq<VertexAttrib>,
)
    requires
        attrib_calls(calls, stride, attribs),
        attribs.len() <= u32::MAX,
    ensures
        run(s, calls).vertex_array == s.vertex_array,
        run(s, calls).buffers == s.buffers,
        run(s, calls).enabled == s.enabled.union(first_slots(s.vertex_array, attribs.len())),
        forall|i: int|
            0 <= i < attribs.len() ==> #[trigger] run(s, calls).attribs.contains_key(
                (s.vertex_array, i as u32),
            ),
        forall|i: int|
            0 <= i < attribs.len() ==> #[trigger] run(s, calls).attribs[(s.vertex_array, i as u32)]
                == declared_layout(attribs[i], stride, bound_buffer(s, GL_ARRAY_BUFFER)),
        forall|k: (u32, u32)|
            !first_slots(s.vertex_array, attribs.len()).contains(k) ==> (
            #[trigger] run(s, calls).attribs.contains_key(k) <==> s.attribs.contains_key(k))
                && run(s, calls).attribs[k] == s.attribs[k],
    decreases attribs.len(),
{
    let array = s.vertex_array;
    let buffer = bound_buffer(s, GL_ARRAY_BUFFER);
    if attribs.len() == 0 {
        assert(calls.len() == 0);
        assert(s.enabled.union(first_slots(array, 0)) =~= s.enabled);
        assert(run(s, calls) == s);
    } else {
        let n = (attribs.len() - 1) as nat;
        let pre = calls.take((2 * n) as int);
        let last = calls.skip((2 * n) as int);
        assert(calls =~= pre + last);
        assert forall|i: int| 0 <= i < n implies {
            &&& #[trigger] pre[2 * i] == GlCall::EnableVertexAttribArray { index: i as u32 }
            &&& pre[2 * i + 1] == attrib_pointer_call(i as u32, stride, attribs.take(n as int)[i])
        } by {
            assert(calls[2 * i] == GlCall::EnableVertexAttribArray { index: i as u32 });
        }
        assert(attrib_calls(pre, stride, attribs.take(n as int)));
        lemma_attribs_declared(s, pre, stride, attribs.take(n as int));
        lemma_run_append(s, pre, last);
        assert(calls[(2 * n) as int] == GlCall::EnableVertexAttribArray { index: n as u32 });
        assert(last =~= seq![
            GlCall::EnableVertexAttribArray { index: n as u32 },
            attrib_pointer_call(n as u32, stride, attribs[n as int]),
        ]);
        let mid = run(s, pre);
        let m1 = step(mid, last[0]);
        let m2 = step(m1, last[1]);
        assert(run(mid, last) == m2) by {
            reveal_with_fuel(run, 3);
        }
        let t = run(s, calls);
        assert(t == m2);
        let slot = (array, n as u32);
        let layout = declared_layout(attribs[n as int], stride, buffer);
        assert(t.attribs == mid.attribs.insert(slot, layout));
        assert(t.enabled == mid.enabled.insert(slot));
        assert(t.enabled =~= s.enabled.union(first_slots(array, attribs.len())));
        assert forall|i: int| 0 <= i < attribs.len() implies #[trigger] run(
            s,
            calls,
        ).attribs.contains_key((s.vertex_array, i as u32)) && run(s, calls).attribs[(
        s.vertex_array,
        i as u32,
        )] == declared_layout(attribs[i], stride, bound_buffer(s, GL_ARRAY_BUFFER)) by {
            if i < n {
                assert(attribs.take(n as int)[i] == attribs[i]);
                assert(mid.attribs.contains_key((array, i as u32)));
                assert(mid.attribs[(array, i as u32)] == declared_layout(
                    attribs.take(n as int)[i],
                    stride,
                    buffer,
                ));
                assert((array, i as u32) != slot);
            } else {
                assert(i == n);
                assert((array, i as u32) == slot);
            }
        }
        assert forall|k: (u32, u32)| !first_slots(array, attribs.len()).contains(k) implies (
        #[trigger] t.attribs.contains_key(k) <==> s.attribs.contains_key(k)) && t.attribs[k]
            == s.attribs[k] by {
            assert(!first_slots(array, n).contains(k));
            assert(k != slot);
            assert(mid.attribs.contains_key(k) <==> s.attribs.contains_key(k));
        }
    }
}

/// Binding a vertex array twice in a row leaves the driver as binding it once
/// does.
pub proof fn lemma_bind_twice(s: DeviceState, id: u32)
    ensures
        run(run(s, vertex_array_bind_calls(id)), vertex_array_bind_calls(id)) == run(
            s,
            vertex_array_bind_calls(id),
        ),
{
    reveal_with_fuel(run, 2);
}

} // verus!
