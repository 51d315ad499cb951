//! Shaders, and the steps that compile one.

use crate::call::{
    batch_well_formed, calls_view, creations, lemma_creations_concat, lemma_creations_none,
    lemma_releases_concat, lemma_releases_none, releases, Call, CallView, Reply, ReplyView,
};
use crate::info_log::{blank_buffer, create_c_string_buffer, decode_lossy, is_c_text, lossy_text};
use vstd::prelude::*;
use vstd::string::StringSliceAdditionalSpecFns;

verus! {

/// A compiled shader stage. It owns its native handle: a compilation hands
/// out one `Shader`, it cannot be copied, and [`Shader::release`] consumes it.
#[derive(Debug)]
pub struct Shader {
    id: u32,
    stage: u32,
}

/// A [`Shader`] as contracts see it.
pub struct ShaderView {
    /// The native handle.
    pub id: u32,
    /// The stage that the shader was compiled for.
    pub stage: u32,
}

impl View for Shader {
    type V = ShaderView;

    closed spec fn view(&self) -> ShaderView {
        ShaderView { id: self.id, stage: self.stage }
    }
}

impl Shader {
    /// The native handle.
    pub fn id(&self) -> (id: u32)
        ensures
            id == self@.id,
    {
        self.id
    }

    /// The stage that the shader was compiled for.
    pub fn stage(&self) -> (stage: u32)
        ensures
            stage == self@.stage,
    {
        self.stage
    }

    /// Starts the compilation of `src` for the stage `shader_type`, as
    /// [`compile_shader`] does for the bytes of `src`.
    pub fn from_str(src: &str, shader_type: u32) -> (start: (ShaderCompilation, Vec<Call>))
        requires
            is_c_text(src.spec_bytes()),
        ensures
            start.0@ == ShaderCompilationView::start(src.spec_bytes(), shader_type),
            calls_view(start.1@) == ShaderCompilationView::first_calls(shader_type),
    {
        compile_shader(src.as_bytes_vec(), shader_type)
    }

    /// Gives the shader up: the one call that releases its handle.
    pub fn release(self) -> (call: Call)
        ensures
            call@ == (CallView::DeleteShader { shader: self@.id }),
    {
        Call::DeleteShader { shader: self.id }
    }
}

/// Where a compilation stands.
#[derive(Debug)]
enum CompilePhase {
    Creating { source: Vec<u8>, stage: u32 },
    Compiling { id: u32, stage: u32 },
    MeasuringLog { id: u32 },
    ReadingLog { id: u32 },
    Compiled { shader: Shader },
    Failed { message: String },
}

/// The compilation of one shader, from the request for a shader object to
/// the compiled [`Shader`] or the driver's diagnostic.
#[derive(Debug)]
pub struct ShaderCompilation {
    phase: CompilePhase,
}

/// A [`ShaderCompilation`] as contracts see it: the state that it is in.
pub enum ShaderCompilationView {
    /// A shader object for `stage` was asked for; its handle is awaited.
    Creating { source: Seq<u8>, stage: u32 },
    /// The source was loaded and compiled; the compile status is awaited.
    Compiling { id: u32, stage: u32 },
    /// The shader did not compile; the length of its info log is awaited.
    MeasuringLog { id: u32 },
    /// The info log was asked for; the filled buffer is awaited.
    ReadingLog { id: u32 },
    /// Over: the shader compiled.
    Compiled { shader: ShaderView },
    /// Over: the shader did not compile, and `message` is its info log.
    Failed { message: Seq<char> },
}

impl ShaderCompilationView {
    /// The state in which the compilation of `source` for `stage` starts.
    pub open spec fn start(source: Seq<u8>, stage: u32) -> Self {
        ShaderCompilationView::Creating { source, stage }
    }

    /// The batch that opens a compilation for `stage`.
    pub open spec fn first_calls(stage: u32) -> Seq<CallView> {
        seq![CallView::CreateShader { stage }]
    }

    /// The source that is still to be loaded is C text.
    pub open spec fn well_formed(self) -> bool {
        self matches ShaderCompilationView::Creating { source, .. } ==> is_c_text(source)
    }

    /// The compilation is over.
    pub open spec fn finished(self) -> bool {
        self is Compiled || self is Failed
    }

    /// `reply` answers the call that the compilation waits on. A negative
    /// number is no length of a log.
    pub open spec fn accepts(self, reply: ReplyView) -> bool {
        match (self, reply) {
            (ShaderCompilationView::Creating { .. }, ReplyView::Handle(_)) => true,
            (ShaderCompilationView::Compiling { .. }, ReplyView::Value(_)) => true,
            (ShaderCompilationView::MeasuringLog { .. }, ReplyView::Value(len)) => len >= 0,
            (ShaderCompilationView::ReadingLog { .. }, ReplyView::Text(_)) => true,
            _ => false,
        }
    }

    /// The state after a `reply` that is accepted, and the batch to perform
    /// next.
    ///
    /// The source is loaded into the new shader object and compiled, and the
    /// status is asked for. A status other than zero ends the compilation with
    /// the shader. After a zero the log is measured, fetched into a buffer of
    /// exactly its length and decoded, and the shader object is released.
    pub open spec fn step(self, reply: ReplyView) -> (Self, Seq<CallView>) {
        match (self, reply) {
            (ShaderCompilationView::Creating { source, stage }, ReplyView::Handle(id)) => (
                ShaderCompilationView::Compiling { id, stage },
                seq![
                    CallView::ShaderSource { shader: id, source },
                    CallView::CompileShader { shader: id },
                    CallView::GetCompileStatus { shader: id },
                ],
            ),
            (ShaderCompilationView::Compiling { id, stage }, ReplyView::Value(status)) => {
                if status != 0 {
                    (ShaderCompilationView::Compiled { shader: ShaderView { id, stage } }, seq![])
                } else {
                    (
                        ShaderCompilationView::MeasuringLog { id },
                        seq![CallView::GetShaderLogLength { shader: id }],
                    )
                }
            },
            (ShaderCompilationView::MeasuringLog { id }, ReplyView::Value(len)) => (
                ShaderCompilationView::ReadingLog { id },
                seq![
                    CallView::GetShaderInfoLog {
                        shader: id,
                        capacity: len,
                        buffer: blank_buffer(len as nat),
                    },
                ],
            ),
            (ShaderCompilationView::ReadingLog { id }, ReplyView::Text(log)) => (
                ShaderCompilationView::Failed { message: lossy_text(log) },
                seq![CallView::DeleteShader { shader: id }],
            ),
            _ => (self, seq![]),
        }
    }

    /// The state after the replies of `replies`, taken in order up to the
    /// first that is not accepted, and all the calls handed out on the way.
    pub open spec fn run(self, replies: Seq<ReplyView>) -> (Self, Seq<CallView>)
        decreases replies.len(),
    {
        if replies.len() == 0 || !self.accepts(replies.first()) {
            (self, seq![])
        } else {
            let (next, calls) = self.step(replies.first());
            let (last, rest) = next.run(replies.drop_first());
            (last, calls + rest)
        }
    }
}

impl View for ShaderCompilation {
    type V = ShaderCompilationView;

    closed spec fn view(&self) -> ShaderCompilationView {
        match self.phase {
            CompilePhase::Creating { source, stage } => ShaderCompilationView::Creating {
                source: source@,
                stage,
            },
            CompilePhase::Compiling { id, stage } => ShaderCompilationView::Compiling { id, stage },
            CompilePhase::MeasuringLog { id } => ShaderCompilationView::MeasuringLog { id },
            CompilePhase::ReadingLog { id } => ShaderCompilationView::ReadingLog { id },
            CompilePhase::Compiled { shader } => ShaderCompilationView::Compiled {
                shader: shader@,
            },
            CompilePhase::Failed { message } => ShaderCompilationView::Failed { message: message@ },
        }
    }
}

/// Starts the compilation of `shader_source` for the stage `shader_type`.
///
/// Returns the compilation and its first batch. The reply to each batch goes
/// to [`ShaderCompilation::step`], until the compilation has finished.
pub fn compile_shader(shader_source: Vec<u8>, shader_type: u32) -> (start: (
    ShaderCompilation,
    Vec<Call>,
))
    requires
        is_c_text(shader_source@),
    ensures
        start.0@ == ShaderCompilationView::start(shader_source@, shader_type),
        calls_view(start.1@) == ShaderCompilationView::first_calls(shader_type),
{
    let calls = vec![Call::CreateShader { stage: shader_type }];
    assert(calls_view(calls@) =~= ShaderCompilationView::first_calls(shader_type));
    (
        ShaderCompilation {
            phase: CompilePhase::Creating { source: shader_source, stage: shader_type },
        },
        calls,
    )
}

impl ShaderCompilation {
    #[verifier::type_invariant]
    spec fn inv(&self) -> bool {
        self@.well_formed()
    }

    /// Whether the compilation is over.
    pub fn finished(&self) -> (done: bool)
        ensures
            done == self@.finished(),
    {
        match self.phase {
            CompilePhase::Compiled { .. } => true,
            CompilePhase::Failed { .. } => true,
            _ => false,
        }
    }

    /// Takes the reply to the last call of the batch that was handed out.
    ///
    /// Returns the compilation in its next state with the batch to perform
    /// next, or `None` where `reply` does not answer the call that the
    /// compilation waits on. The message of a failed compilation is empty
    /// only where the log is, and a log that is valid UTF-8 is its message.
    pub fn step(self, reply: Reply) -> (next: Option<(ShaderCompilation, Vec<Call>)>)
        ensures
            next is Some <==> self@.accepts(reply@),
            (next matches Some(after) ==> {
                &&& (after.0@, calls_view(after.1@)) == self@.step(reply@)
                &&& batch_well_formed(calls_view(after.1@))
                &&& after.0@ matches ShaderCompilationView::Failed { message } ==> {
                    &&& reply@ matches ReplyView::Text(log)
                    &&& message.len() == 0 <==> log.len() == 0
                    &&& vstd::utf8::valid_utf8(log) ==> message == vstd::utf8::decode_utf8(log)
                }
            }),
    {
        proof {
            use_type_invariant(&self);
        }
        match (self.phase, reply) {
            (CompilePhase::Creating { source, stage }, Reply::Handle(id)) => {
                let calls = vec![
                    Call::ShaderSource { shader: id, source },
                    Call::CompileShader { shader: id },
                    Call::GetCompileStatus { shader: id },
                ];
                assert(calls_view(calls@) =~= self@.step(reply@).1);
                Some((ShaderCompilation { phase: CompilePhase::Compiling { id, stage } }, calls))
            },
            (CompilePhase::Compiling { id, stage }, Reply::Value(status)) => {
                if status != 0 {
                    let calls: Vec<Call> = Vec::new();
                    assert(calls_view(calls@) =~= self@.step(reply@).1);
                    let shader = Shader { id, stage };
                    Some((ShaderCompilation { phase: CompilePhase::Compiled { shader } }, calls))
                } else {
                    let calls = vec![Call::GetShaderLogLength { shader: id }];
                    assert(calls_view(calls@) =~= self@.step(reply@).1);
                    Some((ShaderCompilation { phase: CompilePhase::MeasuringLog { id } }, calls))
                }
            },
            (CompilePhase::MeasuringLog { id }, Reply::Value(len)) => {
                if len >= 0 {
                    let buffer = create_c_string_buffer(len as usize);
                    let calls = vec![Call::GetShaderInfoLog { shader: id, capacity: len, buffer }];
                    assert(calls_view(calls@) =~= self@.step(reply@).1);
                    Some((ShaderCompilation { phase: CompilePhase::ReadingLog { id } }, calls))
                } else {
                    None
                }
            },
            (CompilePhase::ReadingLog { id }, Reply::Text(log)) => {
                let message = decode_lossy(&log);
                let calls = vec![Call::DeleteShader { shader: id }];
                assert(calls_view(calls@) =~= self@.step(reply@).1);
                Some((ShaderCompilation { phase: CompilePhase::Failed { message } }, calls))
            },
            _ => None,
        }
    }

    /// The result of a compilation that is over: the shader, or the info log
    /// of the shader that did not compile. `None` while it is under way.
    pub fn outcome(self) -> (result: Option<Result<Shader, String>>)
        ensures
            result is Some <==> self@.finished(),
            (self@ matches ShaderCompilationView::Compiled { shader } ==> result matches Some(
                Ok(compiled),
            ) && compiled@ == shader),
            (self@ matches ShaderCompilationView::Failed { message } ==> result matches Some(
                Err(log),
            ) && log@ == message),
    {
        match self.phase {
            CompilePhase::Compiled { shader } => Some(Ok(shader)),
            CompilePhase::Failed { message } => Some(Err(message)),
            _ => None,
        }
    }
}

/// A compilation that the driver reports as successful loads the source,
/// compiles it and asks for the status, in this order and nothing else, and
/// ends with the shader that owns the created handle.
pub proof fn lemma_compile_success(source: Seq<u8>, stage: u32, id: u32, status: i32)
    requires
        status != 0,
    ensures
        ShaderCompilationView::start(source, stage).run(
            seq![ReplyView::Handle(id), ReplyView::Value(status)],
        ) == (
            ShaderCompilationView::Compiled { shader: ShaderView { id, stage } },
            seq![
                CallView::ShaderSource { shader: id, source },
                CallView::CompileShader { shader: id },
                CallView::GetCompileStatus { shader: id },
            ],
        ),
{
    let replies = seq![ReplyView::Handle(id), ReplyView::Value(status)];
    let compiling = ShaderCompilationView::Compiling { id, stage };
    let compiled = ShaderCompilationView::Compiled { shader: ShaderView { id, stage } };
    assert(replies.drop_first() =~= seq![ReplyView::Value(status)]);
    assert(replies.drop_first().drop_first() =~= Seq::<ReplyView>::empty());
    assert(compiled.run(Seq::<ReplyView>::empty()) == (compiled, Seq::<CallView>::empty()));
    assert(compiling.run(seq![ReplyView::Value(status)]) == (
        compiled,
        Seq::<CallView>::empty() + Seq::<CallView>::empty(),
    ));
    let (last, calls) = ShaderCompilationView::start(source, stage).run(replies);
    assert(calls =~= seq![
        CallView::ShaderSource { shader: id, source },
        CallView::CompileShader { shader: id },
        CallView::GetCompileStatus { shader: id },
    ]);
}

/// A compilation that the driver reports as failed goes on to measure the
/// info log, fetches it into a blank buffer of exactly that length, releases
/// the shader object as its last call, and ends with the decoded log.
pub proof fn lemma_compile_failure(source: Seq<u8>, stage: u32, id: u32, len: i32, log: Seq<u8>)
    requires
        len >= 0,
    ensures
        ShaderCompilationView::start(source, stage).run(
            seq![
                ReplyView::Handle(id),
                ReplyView::Value(0),
                ReplyView::Value(len),
                ReplyView::Text(log),
            ],
        ) == (
            ShaderCompilationView::Failed { message: lossy_text(log) },
            seq![
                CallView::ShaderSource { shader: id, source },
                CallView::CompileShader { shader: id },
                CallView::GetCompileStatus { shader: id },
                CallView::GetShaderLogLength { shader: id },
                CallView::GetShaderInfoLog {
                    shader: id,
                    capacity: len,
                    buffer: blank_buffer(len as nat),
                },
                CallView::DeleteShader { shader: id },
            ],
        ),
{
    let r0 = seq![
        ReplyView::Handle(id),
        ReplyView::Value(0),
        ReplyView::Value(len),
        ReplyView::Text(log),
    ];
    let r1 = seq![ReplyView::Value(0), ReplyView::Value(len), ReplyView::Text(log)];
    let r2 = seq![ReplyView::Value(len), ReplyView::Text(log)];
    let r3 = seq![ReplyView::Text(log)];
    let r4 = Seq::<ReplyView>::empty();
    assert(r0.drop_first() =~= r1);
    assert(r1.drop_first() =~= r2);
    assert(r2.drop_first() =~= r3);
    assert(r3.drop_first() =~= r4);
    let s1 = ShaderCompilationView::Compiling { id, stage };
    let s2 = ShaderCompilationView::MeasuringLog { id };
    let s3 = ShaderCompilationView::ReadingLog { id };
    let s4 = ShaderCompilationView::Failed { message: lossy_text(log) };
    assert(s4.run(r4) == (s4, Seq::<CallView>::empty()));
    assert(s3.run(r3).0 == s4);
    assert(s3.run(r3).1 =~= seq![CallView::DeleteShader { shader: id }]);
    assert(s2.run(r2).0 == s4);
    assert(s2.run(r2).1 =~= seq![
        CallView::GetShaderInfoLog { shader: id, capacity: len, buffer: blank_buffer(len as nat) },
        CallView::DeleteShader { shader: id },
    ]);
    assert(s1.run(r1).0 == s4);
    assert(s1.run(r1).1 =~= seq![
        CallView::GetShaderLogLength { shader: id },
        CallView::GetShaderInfoLog { shader: id, capacity: len, buffer: blank_buffer(len as nat) },
        CallView::DeleteShader { shader: id },
    ]);
    let (last, calls) = ShaderCompilationView::start(source, stage).run(r0);
    assert(last == s4);
    assert(calls =~= seq![
        CallView::ShaderSource { shader: id, source },
        CallView::CompileShader { shader: id },
        CallView::GetCompileStatus { shader: id },
        CallView::GetShaderLogLength { shader: id },
        CallView::GetShaderInfoLog { shader: id, capacity: len, buffer: blank_buffer(len as nat) },
        CallView::DeleteShader { shader: id },
    ]);
}

/// Whatever the driver answers, and however far the compilation gets: the
/// one object that it creates is the shader object that its first batch asks
/// for; it releases that object exactly once where it ends as failed, and
/// releases nothing where it does not; and a compilation that ends with a
/// shader ends with the one that owns the created handle.
pub proof fn lemma_compile_object_accounting(source: Seq<u8>, stage: u32, replies: Seq<ReplyView>)
    ensures
        ({
            let (last, calls) = ShaderCompilationView::start(source, stage).run(replies);
            &&& creations(ShaderCompilationView::first_calls(stage) + calls) == seq![
                CallView::CreateShader { stage },
            ]
            &&& last is Failed ==> replies.len() > 0 && replies[0] is Handle && releases(calls)
                == seq![CallView::DeleteShader { shader: replies[0]->Handle_0 }]
            &&& !(last is Failed) ==> releases(calls) == Seq::<CallView>::empty()
            &&& last matches ShaderCompilationView::Compiled { shader } ==> replies.len() > 0
                && replies[0] == ReplyView::Handle(shader.id) && shader.stage == stage
        }),
{
    let none = Seq::<CallView>::empty();
    let first = ShaderCompilationView::first_calls(stage);
    let s0 = ShaderCompilationView::start(source, stage);
    assert(releases(none) == none);
    assert(creations(none) == none);
    assert(creations(first) == seq![CallView::CreateShader { stage }]) by {
        reveal_with_fuel(creations, 2);
        assert(first.drop_last() =~= none);
    }
    lemma_creations_concat(first, s0.run(replies).1);
    if replies.len() == 0 || !s0.accepts(replies.first()) {
        assert(s0.run(replies) == (s0, none));
    } else {
        let id = replies[0]->Handle_0;
        let (s1, c1) = s0.step(replies.first());
        let r1 = replies.drop_first();
        lemma_releases_none(c1);
        lemma_creations_none(c1);
        assert(s0.run(replies) == (s1.run(r1).0, c1 + s1.run(r1).1));
        lemma_releases_concat(c1, s1.run(r1).1);
        lemma_creations_concat(c1, s1.run(r1).1);
        if r1.len() == 0 || !s1.accepts(r1.first()) {
            assert(s1.run(r1) == (s1, none));
        } else {
            let (s2, c2) = s1.step(r1.first());
            let r2 = r1.drop_first();
            lemma_releases_none(c2);
            lemma_creations_none(c2);
            assert(s1.run(r1) == (s2.run(r2).0, c2 + s2.run(r2).1));
            lemma_releases_concat(c2, s2.run(r2).1);
            lemma_creations_concat(c2, s2.run(r2).1);
            if r2.len() == 0 || !s2.accepts(r2.first()) {
                assert(s2.run(r2) == (s2, none));
            } else {
                let (s3, c3) = s2.step(r2.first());
                let r3 = r2.drop_first();
                lemma_releases_none(c3);
                lemma_creations_none(c3);
                assert(s2.run(r2) == (s3.run(r3).0, c3 + s3.run(r3).1));
                lemma_releases_concat(c3, s3.run(r3).1);
                lemma_creations_concat(c3, s3.run(r3).1);
                if r3.len() == 0 || !s3.accepts(r3.first()) {
                    assert(s3.run(r3) == (s3, none));
                } else {
                    let (s4, c4) = s3.step(r3.first());
                    let r4 = r3.drop_first();
                    assert(releases(c4) == seq![CallView::DeleteShader { shader: id }]) by {
                        reveal_with_fuel(releases, 2);
                        assert(c4.drop_last() =~= none);
                    }
                    lemma_creations_none(c4);
                    assert(s4.run(r4) == (s4, none));
                    assert(s3.run(r3) == (s4, c4 + none));
                    lemma_releases_concat(c4, none);
                    lemma_creations_concat(c4, none);
                }
            }
        }
    }
}

/// A compilation waits on the last call that it handed out: what it takes
/// is exactly what the driver can answer to that call. This holds of the
/// batch that opens it and of every batch after which it is still under way.
/// The calls before the last, and all the calls of a batch that ends the
/// compilation, are answered by nothing.
pub proof fn lemma_compile_takes_its_answers(
    state: ShaderCompilationView,
    reply: ReplyView,
    answer: ReplyView,
)
    requires
        state.accepts(reply),
    ensures
        (state matches ShaderCompilationView::Creating { stage, .. }
            ==> ShaderCompilationView::first_calls(stage).last().answered_by(reply)),
        !state.step(reply).0.finished() ==> state.step(reply).1.len() > 0 && (state.step(
            reply,
        ).0.accepts(answer) <==> state.step(reply).1.last().answered_by(answer)),
        forall|i: int|
            0 <= i < state.step(reply).1.len() && (i < state.step(reply).1.len() - 1 || state.step(
                reply,
            ).0.finished()) ==> (#[trigger] state.step(reply).1[i]).answered_by(
                ReplyView::Nothing,
            ),
{
}

} // verus!
