use vstd::prelude::*;
use vstd::string::StringSliceAdditionalSpecFns;
use crate::device::{run, DeviceState};
use crate::driver::{info_log_text, release_handle, release_step, GlCall, ObjectKind};
use crate::shader::{log_read_from, Shader};

verus! {

/// A program that could not be made: `info_log` holds the driver's
/// diagnostic text where it gave one.
#[derive(Debug)]
pub struct ShaderProgramError {
    pub message: String,
    pub info_log: Option<String>,
}

/// A linked shader pipeline, owned by its one handle. Zero means released.
pub struct ShaderProgram {
    pub gl_id: u32,
}

/// Slot of a uniform variable; `None` where the program has no such uniform.
pub type UniformLocation = Option<u32>;

/// A program made current: uniforms are set through it.
pub struct ActivatedShaderProgram<'a> {
    pub program: &'a mut ShaderProgram,
}

/// The calls that link program `id` from the shaders `shader_ids`: attach
/// each in order, link, detach each in order (detaching whatever the link
/// reports).
pub open spec fn link_calls(id: u32, shader_ids: Seq<u32>) -> Seq<GlCall> {
    Seq::new(shader_ids.len(), |i: int| GlCall::AttachShader { program: id, shader: shader_ids[i] })
        + seq![GlCall::LinkProgram { program: id }] + Seq::new(
        shader_ids.len(),
        |i: int| GlCall::DetachShader { program: id, shader: shader_ids[i] },
    )
}

pub open spec fn shader_ids(shaders: Seq<&Shader>) -> Seq<u32> {
    Seq::new(shaders.len(), |i: int| shaders[i].gl_id)
}

/// The name holds a zero byte, which the driver cannot be handed.
pub open spec fn has_zero_byte(bytes: Seq<u8>) -> bool {
    exists|i: int| 0 <= i < bytes.len() && bytes[i] == 0
}

/// The calls that make program `id` current.
pub open spec fn activate_calls(id: u32) -> Seq<GlCall> {
    seq![GlCall::UseProgram { program: id }]
}

/// The calls that set an integer uniform: none where the location is absent.
pub open spec fn uniform_integer_calls(location: UniformLocation, value: i32) -> Seq<GlCall> {
    match location {
        Some(l) => seq![GlCall::Uniform1i { location: l, value }],
        None => seq![],
    }
}

impl ShaderProgram {
    /// Starts linking `shaders` into the program object that the driver
    /// returned when asked for a new program; a zero handle means the driver
    /// refused. The calls returned attach, link and detach;
    /// `from_link_status` takes the driver's answer.
    pub fn link(gl_id: u32, shaders: &[&Shader]) -> (r: Result<Vec<GlCall>, ShaderProgramError>)
        ensures
            gl_id == 0 <==> r is Err,
            r matches Ok(calls) ==> calls@ == link_calls(gl_id, shader_ids(shaders@)),
            r matches Err(e) ==> e.message@ == "Failed to create GPU shader program"@
                && e.info_log is None,
    {
        if gl_id == 0 {
            return Err(
                ShaderProgramError {
                    message: "Failed to create GPU shader program".to_owned(),
                    info_log: None,
                },
            );
        }
        let ghost ids = shader_ids(shaders@);
        let mut attach: Vec<GlCall> = Vec::new();
        let mut detach: Vec<GlCall> = Vec::new();
        let mut i: usize = 0;
        while i < shaders.len()
            invariant
                i <= shaders@.len(),
                ids == shader_ids(shaders@),
                attach@ =~= Seq::new(
                    i as nat,
                    |k: int| GlCall::AttachShader { program: gl_id, shader: ids[k] },
                ),
                detach@ =~= Seq::new(
                    i as nat,
                    |k: int| GlCall::DetachShader { program: gl_id, shader: ids[k] },
                ),
            decreases shaders@.len() - i,
        {
            let shader_id = shaders[i].gl_id;
            attach.push(GlCall::AttachShader { program: gl_id, shader: shader_id });
            detach.push(GlCall::DetachShader { program: gl_id, shader: shader_id });
            i = i + 1;
        }
        attach.push(GlCall::LinkProgram { program: gl_id });
        attach.append(&mut detach);
        assert(attach@ =~= link_calls(gl_id, ids));
        Ok(attach)
    }

    /// The outcome of linking program `gl_id`: the program where the driver
    /// reports success, else the link error with the text of the driver's
    /// `info_log`.
    pub fn from_link_status(gl_id: u32, linked: bool, info_log: &[u8]) -> (r: Result<
        ShaderProgram,
        ShaderProgramError,
    >)
        requires
            gl_id != 0,
        ensures
            linked <==> r is Ok,
            r matches Ok(p) ==> p.gl_id == gl_id,
            r matches Err(e) ==> e.message@ == "Failed to link shader program"@ && log_read_from(
                e.info_log,
                info_log@,
            ),
    {
        if linked {
            Ok(ShaderProgram { gl_id })
        } else {
            Err(
                ShaderProgramError {
                    message: "Failed to link shader program".to_owned(),
                    info_log: info_log_text(info_log),
                },
            )
        }
    }

    /// The driver query for the location of uniform `uniform`, or `None`
    /// where the name holds a zero byte and cannot be asked for: such a
    /// uniform is absent. `location_from_driver` reads the driver's answer.
    pub fn get_uniform_location(&self, uniform: &str) -> (r: Option<GlCall>)
        ensures
            has_zero_byte(uniform.spec_bytes()) <==> r is None,
            r matches Some(GlCall::GetUniformLocation { program, name }) ==> program == self.gl_id
                && name@ == uniform@,
            r matches Some(c) ==> c is GetUniformLocation,
    {
        let bytes = uniform.as_bytes();
        let mut i: usize = 0;
        while i < bytes.len()
            invariant
                i <= bytes@.len(),
                bytes@ == uniform.spec_bytes(),
                forall|k: int| 0 <= k < i ==> bytes@[k] != 0,
            decreases bytes@.len() - i,
        {
            if bytes[i] == 0 {
                return None;
            }
            i = i + 1;
        }
        Some(GlCall::GetUniformLocation { program: self.gl_id, name: uniform.to_owned() })
    }

    /// Reads the driver's answer to a location query: a negative location
    /// means the program has no such uniform.
    pub fn location_from_driver(gl_location: i32) -> (r: UniformLocation)
        ensures
            gl_location < 0 <==> r is None,
            r matches Some(l) ==> l == gl_location,
    {
        if gl_location < 0 {
            None
        } else {
            Some(gl_location as u32)
        }
    }

    pub fn activate<'a>(&'a mut self) -> (r: (ActivatedShaderProgram<'a>, Vec<GlCall>))
        ensures
            *r.0.program == *old(self),
            *final(self) == *final(r.0.program),
            r.1@ == activate_calls(old(self).gl_id),
    {
        ActivatedShaderProgram::new(self)
    }

    /// Gives up the handle: the first release deletes the program, any later
    /// one does nothing.
    pub fn release(&mut self) -> (r: Option<GlCall>)
        ensures
            final(self).gl_id == 0,
            r == release_step(ObjectKind::Program, old(self).gl_id).1,
    {
        release_handle(ObjectKind::Program, &mut self.gl_id)
    }
}

impl<'a> ActivatedShaderProgram<'a> {
    fn new(program: &'a mut ShaderProgram) -> (r: (Self, Vec<GlCall>))
        ensures
            *r.0.program == *old(program),
            *final(program) == *final(r.0.program),
            r.1@ == activate_calls(old(program).gl_id),
    {
        let calls = vec![GlCall::UseProgram { program: program.gl_id }];
        (ActivatedShaderProgram { program }, calls)
    }

    /// Sets an integer uniform (a sampler takes its texture unit's index);
    /// nothing happens where the location is absent.
    pub fn uniform_integer(&mut self, location: UniformLocation, value: i32) -> (r: Vec<GlCall>)
        ensures
            r@ == uniform_integer_calls(location, value),
    {
        match location {
            Some(l) => vec![GlCall::Uniform1i { location: l, value }],
            None => Vec::new(),
        }
    }
}

/// Making a program current twice in a row leaves the driver as doing it once
/// does.
pub proof fn lemma_activate_twice(s: DeviceState, id: u32)
    ensures
        run(run(s, activate_calls(id)), activate_calls(id)) == run(s, activate_calls(id)),
{
    reveal_with_fuel(run, 2);
}

/// Setting a uniform through an absent location changes no driver state.
pub proof fn lemma_absent_location_no_op(s: DeviceState, value: i32)
    ensures
        run(s, uniform_integer_calls(None, value)) == s,
{
    reveal_with_fuel(run, 1);
}

} // verus!
