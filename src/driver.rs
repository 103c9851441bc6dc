use vstd::prelude::*;
use vstd::utf8::{decode_utf8, valid_utf8};

verus! {

// Driver enumerants used by the wrappers; their values are fixed by the
// OpenGL ABI.
pub const GL_ARRAY_BUFFER: u32 = 0x8892;
pub const GL_ELEMENT_ARRAY_BUFFER: u32 = 0x8893;
pub const GL_STREAM_DRAW: u32 = 0x88E0;
pub const GL_STREAM_READ: u32 = 0x88E1;
pub const GL_STATIC_DRAW: u32 = 0x88E4;
pub const GL_STATIC_READ: u32 = 0x88E5;
pub const GL_DYNAMIC_DRAW: u32 = 0x88E8;
pub const GL_DYNAMIC_READ: u32 = 0x88E9;
pub const GL_FRAGMENT_SHADER: u32 = 0x8B30;
pub const GL_VERTEX_SHADER: u32 = 0x8B31;
pub const GL_GEOMETRY_SHADER: u32 = 0x8DD9;
pub const GL_RED: u32 = 0x1903;
pub const GL_RGB: u32 = 0x1907;
pub const GL_RGBA: u32 = 0x1908;
pub const GL_NEAREST: u32 = 0x2600;
pub const GL_LINEAR: u32 = 0x2601;
pub const GL_TEXTURE_2D: u32 = 0x0DE1;
pub const GL_TEXTURE_MAG_FILTER: u32 = 0x2800;
pub const GL_TEXTURE_MIN_FILTER: u32 = 0x2801;
pub const GL_TEXTURE0: u32 = 0x84C0;
pub const GL_UNSIGNED_BYTE: u32 = 0x1401;
pub const GL_UNSIGNED_INT: u32 = 0x1405;
pub const GL_FLOAT: u32 = 0x1406;
pub const GL_POINTS: u32 = 0x0000;
pub const GL_LINES: u32 = 0x0001;
pub const GL_TRIANGLES: u32 = 0x0004;
pub const GL_TRIANGLE_STRIP: u32 = 0x0005;

/// The kinds of driver object that a wrapper owns.
#[derive(Clone, Copy, Debug, PartialEq, Eq, Structural)]
pub enum ObjectKind {
    Buffer,
    Shader,
    Program,
    Texture,
    VertexArray,
}

/// One call into the driver, with its arguments as plain values.
///
/// `BufferData` carries the byte count only: the caller hands the driver the
/// slice it passed to the upload together with it. `TexImage2D` and
/// `ShaderSource` carry their data. `GetUniformLocation` is a query, whose
/// answer goes to `ShaderProgram::location_from_driver`.
#[derive(Clone, Debug, PartialEq, Eq)]
pub enum GlCall {
    BindBuffer { target: u32, buffer: u32 },
    BufferData { target: u32, size: usize, usage: u32 },
    ShaderSource { shader: u32, source: String },
    CompileShader { shader: u32 },
    AttachShader { program: u32, shader: u32 },
    LinkProgram { program: u32 },
    DetachShader { program: u32, shader: u32 },
    UseProgram { program: u32 },
    Uniform1i { location: u32, value: i32 },
    ActiveTexture { texture: u32 },
    BindTexture { target: u32, texture: u32 },
    TexParameteri { target: u32, pname: u32, param: u32 },
    TexImage2D {
        target: u32,
        internal_format: u32,
        width: usize,
        height: usize,
        format: u32,
        data_type: u32,
        pixels: Vec<u8>,
    },
    BindVertexArray { array: u32 },
    EnableVertexAttribArray { index: u32 },
    VertexAttribPointer {
        index: u32,
        size: u32,
        data_type: u32,
        normalized: bool,
        stride: usize,
        offset: usize,
    },
    DrawArrays { mode: u32, first: usize, count: usize },
    DrawElements { mode: u32, count: usize, index_type: u32, offset: usize },
    GetUniformLocation { program: u32, name: String },
    Delete { kind: ObjectKind, id: u32 },
}

/// What releasing a handle does: a live (non-zero) handle is deleted once and
/// becomes zero; a zero handle stays zero and nothing is deleted.
pub open spec fn release_step(kind: ObjectKind, id: u32) -> (u32, Option<GlCall>) {
    if id == 0 {
        (0, None)
    } else {
        (0, Some(GlCall::Delete { kind, id }))
    }
}

/// Zeroes `id` and returns the delete call that a live handle needs.
pub fn release_handle(kind: ObjectKind, id: &mut u32) -> (r: Option<GlCall>)
    ensures
        (*final(id), r) == release_step(kind, *old(id)),
{
    let current = *id;
    *id = 0;
    if current == 0 {
        None
    } else {
        Some(GlCall::Delete { kind, id: current })
    }
}

/// Releasing twice deletes once: after a first release the handle is zero,
/// and a second release issues no call.
pub proof fn lemma_release_twice(kind: ObjectKind, id: u32)
    ensures
        release_step(kind, id).0 == 0,
        release_step(kind, release_step(kind, id).0).1 == None::<GlCall>,
        release_step(kind, id).1 is Some <==> id != 0,
{
}

/// `n` is where the text of a driver log ends: at its first zero byte, or at
/// its end where it has none.
pub open spec fn is_text_end(log: Seq<u8>, n: int) -> bool {
    &&& 0 <= n <= log.len()
    &&& forall|i: int| 0 <= i < n ==> log[i] != 0
    &&& n == log.len() || log[n] == 0
}

/// What a diagnostic log says when its text is `text`: nothing where the text
/// is empty or not UTF-8, else the decoded text.
pub open spec fn log_text_of(text: Seq<u8>) -> Option<Seq<char>> {
    if text.len() > 0 && valid_utf8(text) {
        Some(decode_utf8(text))
    } else {
        None
    }
}

/// Relies on `String::from_utf8`: it accepts exactly the valid UTF-8 byte
/// strings, and decodes them.
#[verifier::external_body]
fn utf8_string(bytes: Vec<u8>) -> (r: Option<String>)
    ensures
        r is Some <==> valid_utf8(bytes@),
        r matches Some(s) ==> s@ == decode_utf8(bytes@),
{
    String::from_utf8(bytes).ok()
}

/// The diagnostic text of a log that the driver wrote (a compile or link
/// log): the bytes before its terminating zero, decoded as UTF-8. It is absent
/// where the driver wrote none or the text is not UTF-8.
pub fn info_log_text(log: &[u8]) -> (r: Option<String>)
    ensures
        exists|n: int| is_text_end(log@, n),
        forall|n: int|
            is_text_end(log@, n) ==> match r {
                Some(s) => log_text_of(log@.take(n)) == Some(s@),
                None => log_text_of(log@.take(n)) is None,
            },
{
    let mut text: Vec<u8> = Vec::new();
    let mut i: usize = 0;
    while i < log.len() && log[i] != 0
        invariant
            i <= log@.len(),
            text@ == log@.take(i as int),
            forall|k: int| 0 <= k < i ==> log@[k] != 0,
        decreases log@.len() - i,
    {
        text.push(log[i]);
        i = i + 1;
        assert(text@ =~= log@.take(i as int));
    }
    proof {
        assert(is_text_end(log@, i as int));
        assert forall|n: int| is_text_end(log@, n) implies n == i by {
            if n < i {
                assert(log@[n] != 0);
            } else if n > i {
                assert(log@[i as int] != 0);
            }
        }
    }
    if text.len() == 0 {
        None
    } else {
        utf8_string(text)
    }
}

} // verus!
