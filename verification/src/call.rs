//! The native calls this layer asks for, and the replies it takes back.
//!
//! A [`Call`] names one call into the graphics driver with the arguments to
//! pass. Whoever holds the driver performs the calls of a batch in order and
//! answers with the [`Reply`] to the last of them.

use crate::info_log::is_c_text;
use vstd::prelude::*;

verus! {

/// One call into the graphics driver.
#[derive(Debug, PartialEq, Eq)]
pub enum Call {
    /// Create a shader object for the stage `stage`; yields its handle.
    CreateShader { stage: u32 },
    /// Replace the source of `shader` with `source`, passed as a C string.
    ShaderSource { shader: u32, source: Vec<u8> },
    /// Compile the source loaded into `shader`.
    CompileShader { shader: u32 },
    /// Query the compile status of `shader`; yields zero for failure.
    GetCompileStatus { shader: u32 },
    /// Query the length of the info log of `shader`.
    GetShaderLogLength { shader: u32 },
    /// Fetch at most `capacity` bytes of the info log of `shader` into `buffer`;
    /// yields the buffer as the driver left it.
    GetShaderInfoLog { shader: u32, capacity: i32, buffer: Vec<u8> },
    /// Release `shader`.
    DeleteShader { shader: u32 },
    /// Create a program object; yields its handle.
    CreateProgram,
    /// Attach `shader` to `program`.
    AttachShader { program: u32, shader: u32 },
    /// Link what is attached to `program`.
    LinkProgram { program: u32 },
    /// Detach `shader` from `program`.
    DetachShader { program: u32, shader: u32 },
    /// Query the link status of `program`; yields zero for failure.
    GetLinkStatus { program: u32 },
    /// Query the length of the info log of `program`.
    GetProgramLogLength { program: u32 },
    /// Fetch at most `capacity` bytes of the info log of `program` into
    /// `buffer`; yields the buffer as the driver left it.
    GetProgramInfoLog { program: u32, capacity: i32, buffer: Vec<u8> },
    /// Release `program`.
    DeleteProgram { program: u32 },
    /// Make `program` current for the draw calls that follow; zero for none.
    UseProgram { program: u32 },
    /// Look up the uniform `name`, passed as a C string, in `program`; yields
    /// its location, or -1 where the program has no such active uniform.
    GetUniformLocation { program: u32, name: Vec<u8> },
    /// Make `texture` the active texture.
    BindTexture { texture: u32 },
    /// Unbind `texture`.
    ReleaseTexture { texture: u32 },
    /// Bind `vertex_buffer` as the array buffer; zero for none.
    BindArrayBuffer { vertex_buffer: u32 },
    /// Replace the contents of the bound array buffer with `size` bytes of
    /// vertex data that is drawn from often and rarely rewritten.
    ArrayBufferData { size: isize },
    /// Bind the vertex array `array`; zero for none.
    BindVertexArray { array: u32 },
    /// Draw `count` vertices, starting at `first`, as a list of triangles.
    DrawTriangles { first: i32, count: i32 },
}

/// A [`Call`] as contracts see it.
pub enum CallView {
    CreateShader { stage: u32 },
    ShaderSource { shader: u32, source: Seq<u8> },
    CompileShader { shader: u32 },
    GetCompileStatus { shader: u32 },
    GetShaderLogLength { shader: u32 },
    GetShaderInfoLog { shader: u32, capacity: i32, buffer: Seq<u8> },
    DeleteShader { shader: u32 },
    CreateProgram,
    AttachShader { program: u32, shader: u32 },
    LinkProgram { program: u32 },
    DetachShader { program: u32, shader: u32 },
    GetLinkStatus { program: u32 },
    GetProgramLogLength { program: u32 },
    GetProgramInfoLog { program: u32, capacity: i32, buffer: Seq<u8> },
    DeleteProgram { program: u32 },
    UseProgram { program: u32 },
    GetUniformLocation { program: u32, name: Seq<u8> },
    BindTexture { texture: u32 },
    ReleaseTexture { texture: u32 },
    BindArrayBuffer { vertex_buffer: u32 },
    ArrayBufferData { size: isize },
    BindVertexArray { array: u32 },
    DrawTriangles { first: i32, count: i32 },
}

impl View for Call {
    type V = CallView;

    open spec fn view(&self) -> CallView {
        match *self {
            Call::CreateShader { stage } => CallView::CreateShader { stage },
            Call::ShaderSource { shader, source } => CallView::ShaderSource {
                shader,
                source: source@,
            },
            Call::CompileShader { shader } => CallView::CompileShader { shader },
            Call::GetCompileStatus { shader } => CallView::GetCompileStatus { shader },
            Call::GetShaderLogLength { shader } => CallView::GetShaderLogLength { shader },
            Call::GetShaderInfoLog { shader, capacity, buffer } => CallView::GetShaderInfoLog {
                shader,
                capacity,
                buffer: buffer@,
            },
            Call::DeleteShader { shader } => CallView::DeleteShader { shader },
            Call::CreateProgram => CallView::CreateProgram,
            Call::AttachShader { program, shader } => CallView::AttachShader { program, shader },
            Call::LinkProgram { program } => CallView::LinkProgram { program },
            Call::DetachShader { program, shader } => CallView::DetachShader { program, shader },
            Call::GetLinkStatus { program } => CallView::GetLinkStatus { program },
            Call::GetProgramLogLength { program } => CallView::GetProgramLogLength { program },
            Call::GetProgramInfoLog { program, capacity, buffer } => CallView::GetProgramInfoLog {
                program,
                capacity,
                buffer: buffer@,
            },
            Call::DeleteProgram { program } => CallView::DeleteProgram { program },
            Call::UseProgram { program } => CallView::UseProgram { program },
            Call::GetUniformLocation { program, name } => CallView::GetUniformLocation {
                program,
                name: name@,
            },
            Call::BindTexture { texture } => CallView::BindTexture { texture },
            Call::ReleaseTexture { texture } => CallView::ReleaseTexture { texture },
            Call::BindArrayBuffer { vertex_buffer } => CallView::BindArrayBuffer { vertex_buffer },
            Call::ArrayBufferData { size } => CallView::ArrayBufferData { size },
            Call::BindVertexArray { array } => CallView::BindVertexArray { array },
            Call::DrawTriangles { first, count } => CallView::DrawTriangles { first, count },
        }
    }
}

impl CallView {
    /// The call can be made as it stands: text is C text, an info-log buffer
    /// has exactly the capacity that the driver is told, and no size or count
    /// is negative.
    pub open spec fn well_formed(self) -> bool {
        match self {
            CallView::ShaderSource { source, .. } => is_c_text(source),
            CallView::GetUniformLocation { name, .. } => is_c_text(name),
            CallView::GetShaderInfoLog { capacity, buffer, .. } => buffer.len() == capacity,
            CallView::GetProgramInfoLog { capacity, buffer, .. } => buffer.len() == capacity,
            CallView::ArrayBufferData { size } => size >= 0,
            CallView::DrawTriangles { first, count } => first >= 0 && count >= 0,
            _ => true,
        }
    }

    /// `reply` is what the driver can answer to this call: a handle to a
    /// creation, an integer to a query, a length that is not negative to the
    /// query for one, the buffer to the fetch of a log, and nothing to the
    /// rest.
    pub open spec fn answered_by(self, reply: ReplyView) -> bool {
        match self {
            CallView::CreateShader { .. } => reply is Handle,
            CallView::CreateProgram => reply is Handle,
            CallView::GetCompileStatus { .. } => reply is Value,
            CallView::GetLinkStatus { .. } => reply is Value,
            CallView::GetUniformLocation { .. } => reply is Value,
            CallView::GetShaderLogLength { .. } => reply matches ReplyView::Value(len) && len >= 0,
            CallView::GetProgramLogLength { .. } => reply matches ReplyView::Value(len) && len >= 0,
            CallView::GetShaderInfoLog { .. } => reply is Text,
            CallView::GetProgramInfoLog { .. } => reply is Text,
            _ => reply is Nothing,
        }
    }

    /// The call creates a native object.
    pub open spec fn is_creation(self) -> bool {
        self is CreateShader || self is CreateProgram
    }

    /// The call releases a native object.
    pub open spec fn is_release(self) -> bool {
        self is DeleteShader || self is DeleteProgram
    }
}

/// The calls of `calls` that create a native object, in order.
pub open spec fn creations(calls: Seq<CallView>) -> Seq<CallView>
    decreases calls.len(),
{
    if calls.len() == 0 {
        seq![]
    } else if calls.last().is_creation() {
        creations(calls.drop_last()).push(calls.last())
    } else {
        creations(calls.drop_last())
    }
}

/// The calls of `calls` that release a native object, in order.
pub open spec fn releases(calls: Seq<CallView>) -> Seq<CallView>
    decreases calls.len(),
{
    if calls.len() == 0 {
        seq![]
    } else if calls.last().is_release() {
        releases(calls.drop_last()).push(calls.last())
    } else {
        releases(calls.drop_last())
    }
}

/// The releases of two runs of calls, one after the other, are those of the
/// first followed by those of the second.
pub proof fn lemma_releases_concat(first: Seq<CallView>, second: Seq<CallView>)
    ensures
        releases(first + second) == releases(first) + releases(second),
    decreases second.len(),
{
    if second.len() == 0 {
        assert(first + second =~= first);
        assert(releases(first) + releases(second) =~= releases(first));
    } else {
        assert((first + second).drop_last() =~= first + second.drop_last());
        assert((first + second).last() == second.last());
        lemma_releases_concat(first, second.drop_last());
        assert(releases(first + second) =~= releases(first) + releases(second));
    }
}

/// Calls of which none releases an object release nothing.
pub proof fn lemma_releases_none(calls: Seq<CallView>)
    requires
        forall|i: int| 0 <= i < calls.len() ==> !(#[trigger] calls[i]).is_release(),
    ensures
        releases(calls) == Seq::<CallView>::empty(),
    decreases calls.len(),
{
    if calls.len() > 0 {
        assert(!calls[calls.len() - 1].is_release());
        lemma_releases_none(calls.drop_last());
    }
}

/// The creations of two runs of calls, one after the other, are those of the
/// first followed by those of the second.
pub proof fn lemma_creations_concat(first: Seq<CallView>, second: Seq<CallView>)
    ensures
        creations(first + second) == creations(first) + creations(second),
    decreases second.len(),
{
    if second.len() == 0 {
        assert(first + second =~= first);
        assert(creations(first) + creations(second) =~= creations(first));
    } else {
        assert((first + second).drop_last() =~= first + second.drop_last());
        assert((first + second).last() == second.last());
        lemma_creations_concat(first, second.drop_last());
        assert(creations(first + second) =~= creations(first) + creations(second));
    }
}

/// Calls of which none creates an object create nothing.
pub proof fn lemma_creations_none(calls: Seq<CallView>)
    requires
        forall|i: int| 0 <= i < calls.len() ==> !(#[trigger] calls[i]).is_creation(),
    ensures
        creations(calls) == Seq::<CallView>::empty(),
    decreases calls.len(),
{
    if calls.len() > 0 {
        assert(!calls[calls.len() - 1].is_creation());
        lemma_creations_none(calls.drop_last());
    }
}

/// The calls of a batch as contracts see them, in order.
pub open spec fn calls_view(calls: Seq<Call>) -> Seq<CallView> {
    calls.map_values(|call: Call| call@)
}

/// Every call of the batch is well formed.
pub open spec fn batch_well_formed(calls: Seq<CallView>) -> bool {
    forall|i: int| 0 <= i < calls.len() ==> (#[trigger] calls[i]).well_formed()
}

/// What the driver answered to the last call of a batch.
#[derive(Debug, PartialEq, Eq)]
pub enum Reply {
    /// The call yields nothing.
    Nothing,
    /// The handle of the object that the call created.
    Handle(u32),
    /// The integer that the query wrote.
    Value(i32),
    /// The buffer that was handed to the call, as the driver left it.
    Text(Vec<u8>),
}

/// A [`Reply`] as contracts see it.
pub enum ReplyView {
    Nothing,
    Handle(u32),
    Value(i32),
    Text(Seq<u8>),
}

impl View for Reply {
    type V = ReplyView;

    open spec fn view(&self) -> ReplyView {
        match *self {
            Reply::Nothing => ReplyView::Nothing,
            Reply::Handle(handle) => ReplyView::Handle(handle),
            Reply::Value(value) => ReplyView::Value(value),
            Reply::Text(bytes) => ReplyView::Text(bytes@),
        }
    }
}

} // verus!
