use vstd::prelude::*;
use crate::driver::{
    info_log_text, is_text_end, log_text_of, release_handle, release_step, GlCall, ObjectKind,
    GL_FRAGMENT_SHADER, GL_GEOMETRY_SHADER, GL_VERTEX_SHADER,
};

verus! {

/// The pipeline stage a shader is compiled for.
#[derive(Clone, Copy, Debug, PartialEq, Eq, Structural)]
pub enum ShaderTy {
    Fragment,
    Geometry,
    Vertex,
}

impl ShaderTy {
    pub open spec fn gl_stage(self) -> u32 {
        match self {
            ShaderTy::Fragment => GL_FRAGMENT_SHADER,
            ShaderTy::Geometry => GL_GEOMETRY_SHADER,
            ShaderTy::Vertex => GL_VERTEX_SHADER,
        }
    }

    pub fn to_gl_shader_ty(&self) -> (r: u32)
        ensures
            r == self.gl_stage(),
    {
        match *self {
            ShaderTy::Fragment => GL_FRAGMENT_SHADER,
            ShaderTy::Geometry => GL_GEOMETRY_SHADER,
            ShaderTy::Vertex => GL_VERTEX_SHADER,
        }
    }
}

/// A shader that could not be made: `info_log` holds the driver's diagnostic
/// text where it gave one.
#[derive(Debug)]
pub struct ShaderError {
    pub message: String,
    pub info_log: Option<String>,
}

/// A compiled shader stage, owned by its one handle. Zero means released.
pub struct Shader {
    pub ty: ShaderTy,
    pub gl_id: u32,
}

/// `calls` hand `source` to shader `id` and compile it.
pub open spec fn compile_calls(calls: Seq<GlCall>, id: u32, source: Seq<char>) -> bool {
    &&& calls.len() == 2
    &&& calls[0] matches GlCall::ShaderSource { shader, source: s }
    &&& shader == id
    &&& s@ == source
    &&& calls[1] == GlCall::CompileShader { shader: id }
}

/// `info_log` holds the text of the driver's `log`, as `info_log_text` reads it.
pub open spec fn log_read_from(info_log: Option<String>, log: Seq<u8>) -> bool {
    forall|n: int|
        is_text_end(log, n) ==> match info_log {
            Some(s) => log_text_of(log.take(n)) == Some(s@),
            None => log_text_of(log.take(n)) is None,
        }
}

impl Shader {
    /// Starts compiling `source` into the shader object that the driver
    /// returned when asked for a new shader of the wanted stage; a zero handle
    /// means the driver refused. The calls returned submit the source and
    /// compile it; `from_compile_status` takes the driver's answer.
    pub fn from_source(gl_id: u32, source: &str) -> (r: Result<Vec<GlCall>, ShaderError>)
        ensures
            gl_id == 0 <==> r is Err,
            r matches Ok(calls) ==> compile_calls(calls@, gl_id, source@),
            r matches Err(e) ==> e.message@ == "Failed to create GPU shader"@ && e.info_log
                is None,
    {
        if gl_id == 0 {
            return Err(
                ShaderError { message: "Failed to create GPU shader".to_owned(), info_log: None },
            );
        }
        Ok(
            vec![
                GlCall::ShaderSource { shader: gl_id, source: source.to_owned() },
                GlCall::CompileShader { shader: gl_id },
            ],
        )
    }

    /// The outcome of compiling shader `gl_id` for stage `ty`: the shader
    /// where the driver reports success, else the compile error with the
    /// text of the driver's `info_log`.
    pub fn from_compile_status(ty: ShaderTy, gl_id: u32, compiled: bool, info_log: &[u8]) -> (r:
        Result<Shader, ShaderError>)
        requires
            gl_id != 0,
        ensures
            compiled <==> r is Ok,
            r matches Ok(sh) ==> sh.ty == ty && sh.gl_id == gl_id,
            r matches Err(e) ==> e.message@ == "Failed to compile shader"@ && log_read_from(
                e.info_log,
                info_log@,
            ),
    {
        if compiled {
            Ok(Shader { ty, gl_id })
        } else {
            Err(
                ShaderError {
                    message: "Failed to compile shader".to_owned(),
                    info_log: info_log_text(info_log),
                },
            )
        }
    }

    /// Gives up the handle: the first release deletes the shader, any later
    /// one does nothing.
    pub fn release(&mut self) -> (r: Option<GlCall>)
        ensures
            final(self).gl_id == 0,
            final(self).ty == old(self).ty,
            r == release_step(ObjectKind::Shader, old(self).gl_id).1,
    {
        release_handle(ObjectKind::Shader, &mut self.gl_id)
    }
}

} // verus!
