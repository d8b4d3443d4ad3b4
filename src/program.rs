//! Shaders, and programs linked from them.
use vstd::prelude::*;
use crate::call::GlCall;
use crate::glconst;

verus! {

/// The stage a shader runs at.
#[derive(Clone, Copy, Debug, PartialEq, Eq, Structural)]
pub enum ShaderType {
    VertexShader,
    FragmentShader,
}

impl ShaderType {
    pub open spec fn spec_glenum(self) -> u32 {
        match self {
            ShaderType::VertexShader => glconst::VERTEX_SHADER,
            ShaderType::FragmentShader => glconst::FRAGMENT_SHADER,
        }
    }

    /// The GL enumerant of this shader stage.
    pub fn to_glenum(&self) -> (r: u32)
        ensures
            r == self.spec_glenum(),
    {
        match *self {
            ShaderType::VertexShader => glconst::VERTEX_SHADER,
            ShaderType::FragmentShader => glconst::FRAGMENT_SHADER,
        }
    }
}

/// The diagnostic log of a compile or link step, given the status that the
/// driver reported and the log text it holds: nothing when the step
/// succeeded, the log otherwise.
pub fn get_info_log(status: i32, log: String) -> (r: Option<String>)
    ensures
        status == glconst::GL_TRUE ==> r is None,
        status != glconst::GL_TRUE ==> (r matches Some(s) && s@ == log@),
{
    if status == glconst::GL_TRUE {
        None
    } else {
        Some(log)
    }
}

/// A compiled shader. It owns one driver shader name, which is never zero.
#[derive(Debug)]
pub struct Shader {
    name: u32,
    type_: ShaderType,
}

impl Shader {
    #[verifier::type_invariant]
    spec fn inv(self) -> bool {
        self.name != 0
    }

    pub closed spec fn spec_name(&self) -> u32 {
        self.name
    }

    pub closed spec fn spec_type(&self) -> ShaderType {
        self.type_
    }

    /// Takes ownership of an existing shader name of the given stage.
    pub fn from_name(name: u32, type_: ShaderType) -> (r: Shader)
        requires
            name != 0,
        ensures
            r.spec_name() == name,
            r.spec_type() == type_,
    {
        Shader::new_raw(name, type_)
    }

    fn new_raw(id: u32, type_: ShaderType) -> (r: Shader)
        requires
            id != 0,
        ensures
            r.spec_name() == id,
            r.spec_type() == type_,
    {
        Shader { name: id, type_ }
    }

    /// The name (id) of the shader.
    pub fn name(&self) -> (r: u32)
        ensures
            r == self.spec_name(),
            r != 0,
    {
        proof {
            use_type_invariant(self);
        }
        self.name
    }

    /// The stage of the shader.
    pub fn shader_type(&self) -> (r: ShaderType)
        ensures
            r == self.spec_type(),
    {
        self.type_
    }

    /// The outcome of compiling shader `name` of stage `type_`, given the
    /// compile status and the compiler log that the driver reported: the
    /// shader on success, the complete log on failure. A zero name (the
    /// driver could not create the shader) is a failure with an empty log.
    pub fn compile(name: u32, type_: ShaderType, status: i32, log: String) -> (r: Result<
        Shader,
        String,
    >)
        ensures
            r is Ok <==> (status == glconst::GL_TRUE && name != 0),
            r matches Ok(s) ==> s.spec_name() == name && s.spec_type() == type_,
            r matches Err(e) ==> e@ == (if status == glconst::GL_TRUE {
                Seq::empty()
            } else {
                log@
            }),
    {
        match get_info_log(status, log) {
            Some(s) => Err(s),
            None => {
                if name != 0 {
                    Ok(Shader::new_raw(name, type_))
                } else {
                    Err(String::new())
                }
            },
        }
    }

    /// Gives up the handle; the call deletes its shader.
    pub fn release(self) -> (r: GlCall)
        ensures
            r == (GlCall::DeleteShader { shader: self.spec_name() }),
            r.released() == Some(self.spec_name()),
    {
        GlCall::DeleteShader { shader: self.name }
    }
}

/// The position of the first failed compile in `shaders`, if any failed.
pub open spec fn first_failure(shaders: Seq<Result<&Shader, String>>) -> Option<int> {
    if exists|i: int| 0 <= i < shaders.len() && shaders[i] is Err {
        Some(
            choose|i: int|
                0 <= i < shaders.len() && shaders[i] is Err && forall|j: int|
                    0 <= j < i ==> shaders[j] is Ok,
        )
    } else {
        None
    }
}

/// The calls that attach each of `shaders`, in order, to `program` and then link it.
pub open spec fn link_calls(program: u32, shaders: Seq<u32>) -> Seq<GlCall> {
    Seq::new(shaders.len(), |i: int| GlCall::AttachShader { program, shader: shaders[i] }).push(
        GlCall::LinkProgram { program },
    )
}

/// A linked program. It owns one driver program name, which is never zero.
#[derive(Debug)]
pub struct Program {
    name: u32,
}

impl Program {
    #[verifier::type_invariant]
    spec fn inv(self) -> bool {
        self.name != 0
    }

    pub closed spec fn spec_name(&self) -> u32 {
        self.name
    }

    /// Checks the compile results that a program is to be linked from. The
    /// first failure, if any, is returned as it is; otherwise the names of
    /// all the shaders, in order, to attach to a new program.
    pub fn link(shaders: &[Result<&Shader, String>]) -> (r: Result<Vec<u32>, String>)
        ensures
            r is Err <==> first_failure(shaders@) is Some,
            r matches Err(e) ==> e@ == shaders@[first_failure(shaders@)->0]->Err_0@,
            r matches Ok(names) ==> names@.len() == shaders@.len() && forall|i: int|
                0 <= i < shaders@.len() ==> names@[i] == shaders@[i]->Ok_0.spec_name(),
    {
        let mut names: Vec<u32> = Vec::new();
        let mut i: usize = 0;
        while i < shaders.len()
            invariant
                0 <= i <= shaders@.len(),
                names@.len() == i,
                forall|j: int| 0 <= j < i ==> shaders@[j] is Ok,
                forall|j: int| 0 <= j < i ==> names@[j] == shaders@[j]->Ok_0.spec_name(),
            decreases shaders@.len() - i,
        {
            match &shaders[i] {
                Ok(shader) => {
                    names.push(shader.name());
                },
                Err(e) => {
                    proof {
                        let k = first_failure(shaders@)->0;
                        assert(first_failure(shaders@) is Some);
                        assert(k == i as int) by {
                            if k < i as int {
                            } else if k > i as int {
                            }
                        }
                    }
                    return Err(e.clone());
                },
            }
            i = i + 1;
        }
        Ok(names)
    }

    /// The calls that attach the shaders named in `shaders`, in order, to
    /// `program` and then link it.
    pub fn attach_and_link(program: u32, shaders: &[u32]) -> (r: Vec<GlCall>)
        ensures
            r@ == link_calls(program, shaders@),
    {
        let mut calls: Vec<GlCall> = Vec::new();
        let mut i: usize = 0;
        while i < shaders.len()
            invariant
                0 <= i <= shaders@.len(),
                calls@ == Seq::new(
                    i as nat,
                    |j: int| GlCall::AttachShader { program, shader: shaders@[j] },
                ),
            decreases shaders@.len() - i,
        {
            calls.push(GlCall::AttachShader { program, shader: shaders[i] });
            i = i + 1;
            assert(calls@ =~= Seq::new(
                i as nat,
                |j: int| GlCall::AttachShader { program, shader: shaders@[j] },
            ));
        }
        calls.push(GlCall::LinkProgram { program });
        calls
    }

    /// The outcome of linking program `name`, given the link status and the
    /// linker log that the driver reported: the program on success, the
    /// complete log on failure. A zero name is a failure with an empty log.
    pub fn from_link(name: u32, status: i32, log: String) -> (r: Result<Program, String>)
        ensures
            r is Ok <==> (status == glconst::GL_TRUE && name != 0),
            r matches Ok(p) ==> p.spec_name() == name,
            r matches Err(e) ==> e@ == (if status == glconst::GL_TRUE {
                Seq::empty()
            } else {
                log@
            }),
    {
        match get_info_log(status, log) {
            Some(s) => Err(s),
            None => {
                if name != 0 {
                    Ok(Program { name })
                } else {
                    Err(String::new())
                }
            },
        }
    }

    /// Makes this program the current one.
    pub fn bind(&self) -> (r: GlCall)
        ensures
            r == (GlCall::UseProgram { program: self.spec_name() }),
    {
        GlCall::UseProgram { program: self.name }
    }

    /// The name (id) of the program.
    pub fn get_name(&self) -> (r: u32)
        ensures
            r == self.spec_name(),
            r != 0,
    {
        proof {
            use_type_invariant(self);
        }
        self.name
    }

    /// Gives up the handle; the call deletes its program.
    pub fn release(self) -> (r: GlCall)
        ensures
            r == (GlCall::DeleteProgram { program: self.spec_name() }),
            r.released() == Some(self.spec_name()),
    {
        GlCall::DeleteProgram { program: self.name }
    }
}

} // verus!
