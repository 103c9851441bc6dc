use vstd::prelude::*;
use crate::driver::{GlCall, GL_ARRAY_BUFFER};

verus! {

/// The base image of a texture, as the driver stores it.
pub struct TexImage {
    pub internal_format: u32,
    pub width: nat,
    pub height: nat,
    pub format: u32,
    pub pixels: Seq<u8>,
}

/// How one vertex attribute slot reads from a buffer.
pub struct AttribLayout {
    pub buffer: u32,
    pub size: u32,
    pub data_type: u32,
    pub normalized: bool,
    pub stride: nat,
    pub offset: nat,
}

/// The part of the driver's state that the wrappers' calls set: its binding
/// table (last write wins, per target, unit or slot) and what was stored
/// through the current bindings.
pub struct DeviceState {
    /// buffer bound to each buffer target
    pub buffers: Map<u32, u32>,
    /// size in bytes and usage hint of each buffer's data store
    pub buffer_data: Map<u32, (nat, u32)>,
    /// program in use
    pub program: u32,
    /// integer uniforms, by program and location
    pub uniforms: Map<(u32, u32), i32>,
    /// active texture unit (as its enumerant)
    pub active_texture: u32,
    /// texture bound to each (unit, target)
    pub textures: Map<(u32, u32), u32>,
    /// texture parameters, by texture and parameter name
    pub tex_params: Map<(u32, u32), u32>,
    /// base image of each texture
    pub images: Map<u32, TexImage>,
    /// vertex array bound
    pub vertex_array: u32,
    /// enabled attribute slots, by vertex array and slot
    pub enabled: Set<(u32, u32)>,
    /// attribute layouts, by vertex array and slot
    pub attribs: Map<(u32, u32), AttribLayout>,
}

/// Object bound to `target`, zero where none is.
pub open spec fn bound_buffer(s: DeviceState, target: u32) -> u32 {
    if s.buffers.contains_key(target) {
        s.buffers[target]
    } else {
        0
    }
}

/// Texture bound to `target` on the active unit, zero where none is.
pub open spec fn bound_texture(s: DeviceState, target: u32) -> u32 {
    if s.textures.contains_key((s.active_texture, target)) {
        s.textures[(s.active_texture, target)]
    } else {
        0
    }
}

/// The effect of one call on the modelled state. Calls that set nothing of
/// it (compiling, attaching, linking, drawing, deleting) leave it as it is.
pub open spec fn step(s: DeviceState, c: GlCall) -> DeviceState {
    match c {
        GlCall::BindBuffer { target, buffer } => DeviceState {
            buffers: s.buffers.insert(target, buffer),
            ..s
        },
        GlCall::BufferData { target, size, usage } => DeviceState {
            buffer_data: s.buffer_data.insert(bound_buffer(s, target), (size as nat, usage)),
            ..s
        },
        GlCall::UseProgram { program } => DeviceState { program, ..s },
        GlCall::Uniform1i { location, value } => DeviceState {
            uniforms: s.uniforms.insert((s.program, location), value),
            ..s
        },
        GlCall::ActiveTexture { texture } => DeviceState { active_texture: texture, ..s },
        GlCall::BindTexture { target, texture } => DeviceState {
            textures: s.textures.insert((s.active_texture, target), texture),
            ..s
        },
        GlCall::TexParameteri { target, pname, param } => DeviceState {
            tex_params: s.tex_params.insert((bound_texture(s, target), pname), param),
            ..s
        },
        GlCall::TexImage2D { target, internal_format, width, height, format, pixels, .. } => {
            DeviceState {
                images: s.images.insert(
                    bound_texture(s, target),
                    TexImage {
                        internal_format,
                        width: width as nat,
                        height: height as nat,
                        format,
                        pixels: pixels@,
                    },
                ),
                ..s
            }
        },
        GlCall::BindVertexArray { array } => DeviceState { vertex_array: array, ..s },
        GlCall::EnableVertexAttribArray { index } => DeviceState {
            enabled: s.enabled.insert((s.vertex_array, index)),
            ..s
        },
        GlCall::VertexAttribPointer { index, size, data_type, normalized, stride, offset } => {
            DeviceState {
                attribs: s.attribs.insert(
                    (s.vertex_array, index),
                    AttribLayout {
                        buffer: bound_buffer(s, GL_ARRAY_BUFFER),
                        size,
                        data_type,
                        normalized,
                        stride: stride as nat,
                        offset: offset as nat,
                    },
                ),
                ..s
            }
        },
        _ => s,
    }
}

/// The state after issuing `calls` in order.
pub open spec fn run(s: DeviceState, calls: Seq<GlCall>) -> DeviceState
    decreases calls.len(),
{
    if calls.len() == 0 {
        s
    } else {
        run(step(s, calls[0]), calls.drop_first())
    }
}

/// Issuing two lists of calls one after the other is issuing their
/// concatenation.
pub proof fn lemma_run_append(s: DeviceState, a: Seq<GlCall>, b: Seq<GlCall>)
    ensures
        run(s, a + b) == run(run(s, a), b),
    decreases a.len(),
{
    if a.len() == 0 {
        assert(a + b =~= b);
    } else {
        assert((a + b).drop_first() =~= a.drop_first() + b);
        lemma_run_append(step(s, a[0]), a.drop_first(), b);
    }
}

} // verus!
