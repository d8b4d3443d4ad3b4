//! Vertex and element buffer objects.
use vstd::prelude::*;
use vstd::layout::size_of;
use crate::call::GlCall;
use crate::glconst;

verus! {

/// Frequency with which a buffer's contents are expected to be updated.
#[derive(Clone, Copy, Debug, PartialEq, Eq, Structural)]
pub enum VboUsage {
    /// Updated once, drawn many times
    StaticDraw,
    /// Updated many times, drawn many times
    DynamicDraw,
    /// Updated once, drawn once
    StreamDraw,
}

impl VboUsage {
    pub open spec fn spec_glenum(self) -> u32 {
        match self {
            VboUsage::StaticDraw => glconst::STATIC_DRAW,
            VboUsage::DynamicDraw => glconst::DYNAMIC_DRAW,
            VboUsage::StreamDraw => glconst::STREAM_DRAW,
        }
    }

    /// The GL usage hint of this variant.
    pub fn to_glenum(&self) -> (r: u32)
        ensures
            r == self.spec_glenum(),
    {
        match *self {
            VboUsage::StaticDraw => glconst::STATIC_DRAW,
            VboUsage::DynamicDraw => glconst::DYNAMIC_DRAW,
            VboUsage::StreamDraw => glconst::STREAM_DRAW,
        }
    }
}

/// The number of bytes that `len` values of type `T` occupy.
pub open spec fn byte_len<T>(len: nat) -> int {
    (len * size_of::<T>()) as int
}

/// The calls that bind buffer `name` to `target` and fill it with `size`
/// bytes under the given usage hint.
pub open spec fn upload_calls(target: u32, name: u32, size: int, usage: u32) -> Seq<GlCall> {
    seq![
        GlCall::BindBuffer { target, name },
        GlCall::BufferData { target, size: size as isize, usage },
    ]
}

/// Computes `len * size_of::<T>()`, the byte length of a slice of `len` values.
fn slice_byte_len<T>(len: usize) -> (r: isize)
    requires
        byte_len::<T>(len as nat) <= isize::MAX,
    ensures
        r == byte_len::<T>(len as nat),
{
    let size = core::mem::size_of::<T>();
    proof {
        assert(len as int * size as int <= isize::MAX);
        assert(0 <= len as int * size as int) by (nonlinear_arith)
            requires
                0 <= len as int,
                0 <= size as int,
        ;
    }
    (len * size) as isize
}

/// A vertex buffer object (`GL_ARRAY_BUFFER`). It owns one driver buffer name.
#[derive(Debug)]
pub struct Vbo {
    name: u32,
}

impl Vbo {
    #[verifier::type_invariant]
    spec fn inv(self) -> bool {
        self.name != 0
    }

    pub closed spec fn spec_name(&self) -> u32 {
        self.name
    }

    /// Takes ownership of the buffer name that the driver generated.
    pub fn new(name: u32) -> (r: Vbo)
        requires
            name != 0,
        ensures
            r.spec_name() == name,
    {
        Vbo { name }
    }

    /// Takes ownership of `name` and fills the buffer with `data`. The calls
    /// bind the buffer and then load the data into it.
    pub fn from_data<T>(name: u32, data: &[T], usage: VboUsage) -> (r: (Vbo, Vec<GlCall>))
        requires
            name != 0,
            byte_len::<T>(data@.len()) <= isize::MAX,
        ensures
            r.0.spec_name() == name,
            r.1@ == seq![GlCall::BindBuffer { target: glconst::ARRAY_BUFFER, name }] + upload_calls(
                glconst::ARRAY_BUFFER,
                name,
                byte_len::<T>(data@.len()),
                usage.spec_glenum(),
            ),
    {
        let vbo = Vbo::new(name);
        let mut calls = vec![vbo.bind()];
        let mut load = vbo.load_data(data, usage);
        calls.append(&mut load);
        (vbo, calls)
    }

    /// Binds this buffer and replaces its contents with `data`, whose byte
    /// length is its element count times the element size.
    pub fn load_data<T>(&self, data: &[T], usage: VboUsage) -> (r: Vec<GlCall>)
        requires
            byte_len::<T>(data@.len()) <= isize::MAX,
        ensures
            r@ == upload_calls(
                glconst::ARRAY_BUFFER,
                self.spec_name(),
                byte_len::<T>(data@.len()),
                usage.spec_glenum(),
            ),
    {
        let size = slice_byte_len::<T>(data.len());
        vec![
            self.bind(),
            GlCall::BufferData { target: glconst::ARRAY_BUFFER, size, usage: usage.to_glenum() },
        ]
    }

    /// Binds this buffer to `GL_ARRAY_BUFFER`.
    pub fn bind(&self) -> (r: GlCall)
        ensures
            r == (GlCall::BindBuffer { target: glconst::ARRAY_BUFFER, name: self.spec_name() }),
    {
        GlCall::BindBuffer { target: glconst::ARRAY_BUFFER, name: self.name }
    }

    /// Gives up the handle; the call deletes its buffer.
    pub fn release(self) -> (r: GlCall)
        ensures
            r == (GlCall::DeleteBuffer { name: self.spec_name() }),
            r.released() == Some(self.spec_name()),
    {
        GlCall::DeleteBuffer { name: self.name }
    }
}

/// An element buffer object (`GL_ELEMENT_ARRAY_BUFFER`). It owns one driver
/// buffer name.
#[derive(Debug)]
pub struct Ebo {
    name: u32,
}

impl Ebo {
    #[verifier::type_invariant]
    spec fn inv(self) -> bool {
        self.name != 0
    }

    pub closed spec fn spec_name(&self) -> u32 {
        self.name
    }

    /// Takes ownership of `name` and fills it with `indices`, as static data.
    pub fn from_indices(name: u32, indices: &[u32]) -> (r: (Ebo, Vec<GlCall>))
        requires
            name != 0,
            indices@.len() * 4 <= isize::MAX,
        ensures
            r.0.spec_name() == name,
            r.1@ == upload_calls(
                glconst::ELEMENT_ARRAY_BUFFER,
                name,
                (indices@.len() * 4) as int,
                glconst::STATIC_DRAW,
            ),
    {
        let ebo = Ebo { name };
        let size = indices.len() * 4;
        let calls = vec![
            ebo.bind(),
            GlCall::BufferData {
                target: glconst::ELEMENT_ARRAY_BUFFER,
                size: size as isize,
                usage: glconst::STATIC_DRAW,
            },
        ];
        (ebo, calls)
    }

    /// Binds this buffer to `GL_ELEMENT_ARRAY_BUFFER`.
    pub fn bind(&self) -> (r: GlCall)
        ensures
            r == (GlCall::BindBuffer {
                target: glconst::ELEMENT_ARRAY_BUFFER,
                name: self.spec_name(),
            }),
    {
        GlCall::BindBuffer { target: glconst::ELEMENT_ARRAY_BUFFER, name: self.name }
    }

    /// Gives up the handle; the call deletes its buffer.
    pub fn release(self) -> (r: GlCall)
        ensures
            r == (GlCall::DeleteBuffer { name: self.spec_name() }),
            r.released() == Some(self.spec_name()),
    {
        GlCall::DeleteBuffer { name: self.name }
    }
}

} // verus!
