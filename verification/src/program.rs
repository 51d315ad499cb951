//! Shader programs, and the steps that link one.

use crate::call::{
    batch_well_formed, calls_view, creations, lemma_creations_concat, lemma_creations_none,
    lemma_releases_concat, lemma_releases_none, releases, Call, CallView, Reply, ReplyView,
};
use crate::info_log::{blank_buffer, create_c_string_buffer, decode_lossy, is_c_text, lossy_text};
use crate::shader::Shader;
use vstd::prelude::*;

verus! {

/// A linked program. It owns its native handle: a link hands out one
/// `ShaderProgram`, it cannot be copied, and [`ShaderProgram::release`]
/// consumes it.
#[derive(Debug)]
pub struct ShaderProgram {
    id: u32,
}

/// A [`ShaderProgram`] as contracts see it.
pub struct ShaderProgramView {
    /// The native handle.
    pub id: u32,
}

impl View for ShaderProgram {
    type V = ShaderProgramView;

    closed spec fn view(&self) -> ShaderProgramView {
        ShaderProgramView { id: self.id }
    }
}

impl ShaderProgram {
    /// The native handle.
    pub fn id(&self) -> (id: u32)
        ensures
            id == self@.id,
    {
        self.id
    }

    /// The call that makes this program current for the draw calls that
    /// follow.
    pub fn use_program(&self) -> (call: Call)
        ensures
            call@ == (CallView::UseProgram { program: self@.id }),
    {
        Call::UseProgram { program: self.id }
    }

    /// The call that looks up the uniform `name` in this program. The reply
    /// to it is the location, or -1 where the program has no active uniform
    /// of that name.
    pub fn get_uniform(&self, name: Vec<u8>) -> (call: Call)
        requires
            is_c_text(name@),
        ensures
            call@ == (CallView::GetUniformLocation { program: self@.id, name: name@ }),
            call@.well_formed(),
    {
        Call::GetUniformLocation { program: self.id, name }
    }

    /// Gives the program up: the one call that releases its handle.
    pub fn release(self) -> (call: Call)
        ensures
            call@ == (CallView::DeleteProgram { program: self@.id }),
    {
        Call::DeleteProgram { program: self.id }
    }
}

/// The call that makes `program` current for the draw calls that follow.
pub fn use_program(program: &ShaderProgram) -> (call: Call)
    ensures
        call@ == (CallView::UseProgram { program: program@.id }),
{
    program.use_program()
}

/// The handles of `shaders`, in order.
pub open spec fn shader_ids(shaders: Seq<Shader>) -> Seq<u32> {
    shaders.map_values(|shader: Shader| shader@.id)
}

/// One call per shader, in order, that attaches it to `program`.
pub open spec fn attach_calls(program: u32, shaders: Seq<u32>) -> Seq<CallView> {
    shaders.map_values(|shader: u32| CallView::AttachShader { program, shader })
}

/// One call per shader, in order, that detaches it from `program`.
pub open spec fn detach_calls(program: u32, shaders: Seq<u32>) -> Seq<CallView> {
    shaders.map_values(|shader: u32| CallView::DetachShader { program, shader })
}

/// The batch that links `shaders` into `program`: every shader is attached,
/// the program is linked, every shader is detached again, and only then is
/// the link status asked for.
pub open spec fn link_calls(program: u32, shaders: Seq<u32>) -> Seq<CallView> {
    attach_calls(program, shaders) + seq![CallView::LinkProgram { program }] + detach_calls(
        program,
        shaders,
    ) + seq![CallView::GetLinkStatus { program }]
}

/// Where a link stands.
#[derive(Debug)]
enum LinkPhase {
    Creating { shaders: Vec<u32> },
    Linking { id: u32 },
    MeasuringLog { id: u32 },
    ReadingLog { id: u32 },
    Linked { program: ShaderProgram },
    Failed { message: String },
}

/// The link of one program, from the request for a program object to the
/// linked [`ShaderProgram`] or the driver's diagnostic.
#[derive(Debug)]
pub struct ProgramLink {
    phase: LinkPhase,
}

/// A [`ProgramLink`] as contracts see it: the state that it is in.
pub enum ProgramLinkView {
    /// A program object was asked for; its handle is awaited.
    Creating { shaders: Seq<u32> },
    /// The shaders were attached, linked and detached; the link status is
    /// awaited.
    Linking { id: u32 },
    /// The program did not link; the length of its info log is awaited.
    MeasuringLog { id: u32 },
    /// The info log was asked for; the filled buffer is awaited.
    ReadingLog { id: u32 },
    /// Over: the program linked.
    Linked { program: ShaderProgramView },
    /// Over: the program did not link, and `message` is its info log.
    Failed { message: Seq<char> },
}

impl ProgramLinkView {
    /// The state in which the link of the shaders with the handles `shaders`
    /// starts.
    pub open spec fn start(shaders: Seq<u32>) -> Self {
        ProgramLinkView::Creating { shaders }
    }

    /// The batch that opens a link.
    pub open spec fn first_calls() -> Seq<CallView> {
        seq![CallView::CreateProgram]
    }

    /// The link is over.
    pub open spec fn finished(self) -> bool {
        self is Linked || self is Failed
    }

    /// `reply` answers the call that the link waits on. A negative number is
    /// no length of a log.
    pub open spec fn accepts(self, reply: ReplyView) -> bool {
        match (self, reply) {
            (ProgramLinkView::Creating { .. }, ReplyView::Handle(_)) => true,
            (ProgramLinkView::Linking { .. }, ReplyView::Value(_)) => true,
            (ProgramLinkView::MeasuringLog { .. }, ReplyView::Value(len)) => len >= 0,
            (ProgramLinkView::ReadingLog { .. }, ReplyView::Text(_)) => true,
            _ => false,
        }
    }

    /// The state after a `reply` that is accepted, and the batch to perform
    /// next.
    ///
    /// The shaders are linked into the new program object by [`link_calls`].
    /// A status other than zero ends the link with the program. After a zero
    /// the log is measured, fetched into a buffer of exactly its length and
    /// decoded, and the program object is released.
    pub open spec fn step(self, reply: ReplyView) -> (Self, Seq<CallView>) {
        match (self, reply) {
            (ProgramLinkView::Creating { shaders }, ReplyView::Handle(id)) => (
                ProgramLinkView::Linking { id },
                link_calls(id, shaders),
            ),
            (ProgramLinkView::Linking { id }, ReplyView::Value(status)) => {
                if status != 0 {
                    (ProgramLinkView::Linked { program: ShaderProgramView { id } }, seq![])
                } else {
                    (
                        ProgramLinkView::MeasuringLog { id },
                        seq![CallView::GetProgramLogLength { program: id }],
                    )
                }
            },
            (ProgramLinkView::MeasuringLog { id }, ReplyView::Value(len)) => (
                ProgramLinkView::ReadingLog { id },
                seq![
                    CallView::GetProgramInfoLog {
                        program: id,
                        capacity: len,
                        buffer: blank_buffer(len as nat),
                    },
                ],
            ),
            (ProgramLinkView::ReadingLog { id }, ReplyView::Text(log)) => (
                ProgramLinkView::Failed { message: lossy_text(log) },
                seq![CallView::DeleteProgram { program: id }],
            ),
            _ => (self, seq![]),
        }
    }

    /// The state after the replies of `replies`, taken in order up to the
    /// first that is not accepted, and all the calls handed out on the way.
    pub open spec fn run(self, replies: Seq<ReplyView>) -> (Self, Seq<CallView>)
        decreases replies.len(),
    {
        if replies.len() == 0 || !self.accepts(replies.first()) {
            (self, seq![])
        } else {
            let (next, calls) = self.step(replies.first());
            let (last, rest) = next.run(replies.drop_first());
            (last, calls + rest)
        }
    }
}

impl View for ProgramLink {
    type V = ProgramLinkView;

    closed spec fn view(&self) -> ProgramLinkView {
        match self.phase {
            LinkPhase::Creating { shaders } => ProgramLinkView::Creating { shaders: shaders@ },
            LinkPhase::Linking { id } => ProgramLinkView::Linking { id },
            LinkPhase::MeasuringLog { id } => ProgramLinkView::MeasuringLog { id },
            LinkPhase::ReadingLog { id } => ProgramLinkView::ReadingLog { id },
            LinkPhase::Linked { program } => ProgramLinkView::Linked { program: program@ },
            LinkPhase::Failed { message } => ProgramLinkView::Failed { message: message@ },
        }
    }
}

/// Starts the link of `shaders` into one program.
///
/// Returns the link and its first batch. The reply to each batch goes to
/// [`ProgramLink::step`], until the link has finished. The shaders are only
/// borrowed: whatever the link comes to, each is still to be released.
pub fn link_program(shaders: &[Shader]) -> (start: (ProgramLink, Vec<Call>))
    ensures
        start.0@ == ProgramLinkView::start(shader_ids(shaders@)),
        calls_view(start.1@) == ProgramLinkView::first_calls(),
{
    let mut ids: Vec<u32> = Vec::new();
    let mut taken: usize = 0;
    while taken < shaders.len()
        invariant
            taken <= shaders.len(),
            ids@ == shader_ids(shaders@.take(taken as int)),
        decreases shaders.len() - taken,
    {
        ids.push(shaders[taken].id());
        taken += 1;
        assert(ids@ =~= shader_ids(shaders@.take(taken as int)));
    }
    assert(shaders@.take(taken as int) =~= shaders@);
    let calls = vec![Call::CreateProgram];
    assert(calls_view(calls@) =~= ProgramLinkView::first_calls());
    (ProgramLink { phase: LinkPhase::Creating { shaders: ids } }, calls)
}

/// Adds to `calls` one call per shader that attaches it to `program`.
fn push_attach_calls(calls: &mut Vec<Call>, program: u32, shaders: &Vec<u32>)
    ensures
        calls_view(final(calls)@) == calls_view(old(calls)@) + attach_calls(program, shaders@),
{
    let mut done: usize = 0;
    while done < shaders.len()
        invariant
            done <= shaders.len(),
            calls_view(calls@) == calls_view(old(calls)@) + attach_calls(
                program,
                shaders@.take(done as int),
            ),
        decreases shaders.len() - done,
    {
        let ghost before = calls@;
        calls.push(Call::AttachShader { program, shader: shaders[done] });
        done += 1;
        proof {
            let call = CallView::AttachShader { program, shader: shaders@[done - 1] };
            assert(calls_view(calls@) =~= calls_view(before).push(call));
            assert(shaders@.take(done as int) =~= shaders@.take(done - 1).push(shaders@[done - 1]));
            assert(attach_calls(program, shaders@.take(done as int)) =~= attach_calls(
                program,
                shaders@.take(done - 1),
            ).push(call));
            assert(calls_view(calls@) =~= calls_view(old(calls)@) + attach_calls(
                program,
                shaders@.take(done as int),
            ));
        }
    }
    assert(shaders@.take(done as int) =~= shaders@);
}

/// Adds to `calls` one call per shader that detaches it from `program`.
fn push_detach_calls(calls: &mut Vec<Call>, program: u32, shaders: &Vec<u32>)
    ensures
        calls_view(final(calls)@) == calls_view(old(calls)@) + detach_calls(program, shaders@),
{
    let mut done: usize = 0;
    while done < shaders.len()
        invariant
            done <= shaders.len(),
            calls_view(calls@) == calls_view(old(calls)@) + detach_calls(
                program,
                shaders@.take(done as int),
            ),
        decreases shaders.len() - done,
    {
        let ghost before = calls@;
        calls.push(Call::DetachShader { program, shader: shaders[done] });
        done += 1;
        proof {
            let call = CallView::DetachShader { program, shader: shaders@[done - 1] };
            assert(calls_view(calls@) =~= calls_view(before).push(call));
            assert(shaders@.take(done as int) =~= shaders@.take(done - 1).push(shaders@[done - 1]));
            assert(detach_calls(program, shaders@.take(done as int)) =~= detach_calls(
                program,
                shaders@.take(done - 1),
            ).push(call));
            assert(calls_view(calls@) =~= calls_view(old(calls)@) + detach_calls(
                program,
                shaders@.take(done as int),
            ));
        }
    }
    assert(shaders@.take(done as int) =~= shaders@);
}

impl ProgramLink {
    /// Whether the link is over.
    pub fn finished(&self) -> (done: bool)
        ensures
            done == self@.finished(),
    {
        match self.phase {
            LinkPhase::Linked { .. } => true,
            LinkPhase::Failed { .. } => true,
            _ => false,
        }
    }

    /// Takes the reply to the last call of the batch that was handed out.
    ///
    /// Returns the link in its next state with the batch to perform next, or
    /// `None` where `reply` does not answer the call that the link waits on.
    /// The message of a failed link is empty only where the log is, and a log
    /// that is valid UTF-8 is its message.
    pub fn step(self, reply: Reply) -> (next: Option<(ProgramLink, Vec<Call>)>)
        ensures
            next is Some <==> self@.accepts(reply@),
            (next matches Some(after) ==> {
                &&& (after.0@, calls_view(after.1@)) == self@.step(reply@)
                &&& batch_well_formed(calls_view(after.1@))
                &&& after.0@ matches ProgramLinkView::Failed { message } ==> {
                    &&& reply@ matches ReplyView::Text(log)
                    &&& message.len() == 0 <==> log.len() == 0
                    &&& vstd::utf8::valid_utf8(log) ==> message == vstd::utf8::decode_utf8(log)
                }
            }),
    {
        match (self.phase, reply) {
            (LinkPhase::Creating { shaders }, Reply::Handle(id)) => {
                let mut calls: Vec<Call> = Vec::new();
                assert(calls_view(calls@) =~= Seq::<CallView>::empty());
                push_attach_calls(&mut calls, id, &shaders);
                calls.push(Call::LinkProgram { program: id });
                assert(calls_view(calls@) =~= attach_calls(id, shaders@) + seq![
                    CallView::LinkProgram { program: id },
                ]);
                push_detach_calls(&mut calls, id, &shaders);
                calls.push(Call::GetLinkStatus { program: id });
                assert(calls_view(calls@) =~= link_calls(id, shaders@));
                Some((ProgramLink { phase: LinkPhase::Linking { id } }, calls))
            },
            (LinkPhase::Linking { id }, Reply::Value(status)) => {
                if status != 0 {
                    let calls: Vec<Call> = Vec::new();
                    assert(calls_view(calls@) =~= self@.step(reply@).1);
                    let program = ShaderProgram { id };
                    Some((ProgramLink { phase: LinkPhase::Linked { program } }, calls))
                } else {
                    let calls = vec![Call::GetProgramLogLength { program: id }];
                    assert(calls_view(calls@) =~= self@.step(reply@).1);
                    Some((ProgramLink { phase: LinkPhase::MeasuringLog { id } }, calls))
                }
            },
            (LinkPhase::MeasuringLog { id }, Reply::Value(len)) => {
                if len >= 0 {
                    let buffer = create_c_string_buffer(len as usize);
                    let calls = vec![
                        Call::GetProgramInfoLog { program: id, capacity: len, buffer },
                    ];
                    assert(calls_view(calls@) =~= self@.step(reply@).1);
                    Some((ProgramLink { phase: LinkPhase::ReadingLog { id } }, calls))
                } else {
                    None
                }
            },
            (LinkPhase::ReadingLog { id }, Reply::Text(log)) => {
                let message = decode_lossy(&log);
                let calls = vec![Call::DeleteProgram { program: id }];
                assert(calls_view(calls@) =~= self@.step(reply@).1);
                Some((ProgramLink { phase: LinkPhase::Failed { message } }, calls))
            },
            _ => None,
        }
    }

    /// The result of a link that is over: the program, or the info log of the
    /// program that did not link. `None` while the link is under way.
    pub fn outcome(self) -> (result: Option<Result<ShaderProgram, String>>)
        ensures
            result is Some <==> self@.finished(),
            (self@ matches ProgramLinkView::Linked { program } ==> result matches Some(Ok(linked))
                && linked@ == program),
            (self@ matches ProgramLinkView::Failed { message } ==> result matches Some(Err(log))
                && log@ == message),
    {
        match self.phase {
            LinkPhase::Linked { program } => Some(Ok(program)),
            LinkPhase::Failed { message } => Some(Err(message)),
            _ => None,
        }
    }
}

/// A link that the driver reports as successful makes the calls of
/// [`link_calls`] and nothing else, and ends with the program that owns the
/// created handle.
pub proof fn lemma_link_success(shaders: Seq<u32>, id: u32, status: i32)
    requires
        status != 0,
    ensures
        ProgramLinkView::start(shaders).run(seq![ReplyView::Handle(id), ReplyView::Value(status)])
            == (
            ProgramLinkView::Linked { program: ShaderProgramView { id } },
            link_calls(id, shaders),
        ),
{
    let replies = seq![ReplyView::Handle(id), ReplyView::Value(status)];
    let linking = ProgramLinkView::Linking { id };
    let linked = ProgramLinkView::Linked { program: ShaderProgramView { id } };
    let none = Seq::<CallView>::empty();
    assert(replies.drop_first() =~= seq![ReplyView::Value(status)]);
    assert(replies.drop_first().drop_first() =~= Seq::<ReplyView>::empty());
    assert(linked.run(Seq::<ReplyView>::empty()) == (linked, none));
    assert(linking.run(seq![ReplyView::Value(status)]) == (linked, none + none));
    let (last, calls) = ProgramLinkView::start(shaders).run(replies);
    assert(calls =~= link_calls(id, shaders));
}

/// A link that the driver reports as failed goes on to measure the info log,
/// fetches it into a blank buffer of exactly that length, releases the
/// program object as its last call, and ends with the decoded log.
pub proof fn lemma_link_failure(shaders: Seq<u32>, id: u32, len: i32, log: Seq<u8>)
    requires
        len >= 0,
    ensures
        ProgramLinkView::start(shaders).run(
            seq![
                ReplyView::Handle(id),
                ReplyView::Value(0),
                ReplyView::Value(len),
                ReplyView::Text(log),
            ],
        ) == (
            ProgramLinkView::Failed { message: lossy_text(log) },
            link_calls(id, shaders) + seq![
                CallView::GetProgramLogLength { program: id },
                CallView::GetProgramInfoLog {
                    program: id,
                    capacity: len,
                    buffer: blank_buffer(len as nat),
                },
                CallView::DeleteProgram { program: id },
            ],
        ),
{
    let r0 = seq![
        ReplyView::Handle(id),
        ReplyView::Value(0),
        ReplyView::Value(len),
        ReplyView::Text(log),
    ];
    let r1 = seq![ReplyView::Value(0), ReplyView::Value(len), ReplyView::Text(log)];
    let r2 = seq![ReplyView::Value(len), ReplyView::Text(log)];
    let r3 = seq![ReplyView::Text(log)];
    let r4 = Seq::<ReplyView>::empty();
    assert(r0.drop_first() =~= r1);
    assert(r1.drop_first() =~= r2);
    assert(r2.drop_first() =~= r3);
    assert(r3.drop_first() =~= r4);
    let s1 = ProgramLinkView::Linking { id };
    let s2 = ProgramLinkView::MeasuringLog { id };
    let s3 = ProgramLinkView::ReadingLog { id };
    let s4 = ProgramLinkView::Failed { message: lossy_text(log) };
    let fetch = CallView::GetProgramInfoLog {
        program: id,
        capacity: len,
        buffer: blank_buffer(len as nat),
    };
    assert(s4.run(r4) == (s4, Seq::<CallView>::empty()));
    assert(s3.run(r3).0 == s4);
    assert(s3.run(r3).1 =~= seq![CallView::DeleteProgram { program: id }]);
    assert(s2.run(r2).0 == s4);
    assert(s2.run(r2).1 =~= seq![fetch, CallView::DeleteProgram { program: id }]);
    assert(s1.run(r1).0 == s4);
    assert(s1.run(r1).1 =~= seq![
        CallView::GetProgramLogLength { program: id },
        fetch,
        CallView::DeleteProgram { program: id },
    ]);
    let (last, calls) = ProgramLinkView::start(shaders).run(r0);
    assert(last == s4);
    assert(calls =~= link_calls(id, shaders) + seq![
        CallView::GetProgramLogLength { program: id },
        fetch,
        CallView::DeleteProgram { program: id },
    ]);
}

/// Whatever the driver answers, and however far the link gets: the one
/// object that it creates is the program object that its first batch asks
/// for; it releases that object exactly once where it ends as failed, and
/// releases nothing where it does not, least of all a shader; and a link that
/// ends with a program ends with the one that owns the created handle.
pub proof fn lemma_link_object_accounting(shaders: Seq<u32>, replies: Seq<ReplyView>)
    ensures
        ({
            let (last, calls) = ProgramLinkView::start(shaders).run(replies);
            &&& creations(ProgramLinkView::first_calls() + calls) == seq![CallView::CreateProgram]
            &&& last is Failed ==> replies.len() > 0 && replies[0] is Handle && releases(calls)
                == seq![CallView::DeleteProgram { program: replies[0]->Handle_0 }]
            &&& !(last is Failed) ==> releases(calls) == Seq::<CallView>::empty()
            &&& last matches ProgramLinkView::Linked { program } ==> replies.len() > 0
                && replies[0] == ReplyView::Handle(program.id)
        }),
{
    let none = Seq::<CallView>::empty();
    let first = ProgramLinkView::first_calls();
    let s0 = ProgramLinkView::start(shaders);
    assert(releases(none) == none);
    assert(creations(none) == none);
    assert(creations(first) == seq![CallView::CreateProgram]) by {
        reveal_with_fuel(creations, 2);
        assert(first.drop_last() =~= none);
    }
    lemma_creations_concat(first, s0.run(replies).1);
    if replies.len() == 0 || !s0.accepts(replies.first()) {
        assert(s0.run(replies) == (s0, none));
    } else {
        let id = replies[0]->Handle_0;
        let (s1, c1) = s0.step(replies.first());
        let r1 = replies.drop_first();
        lemma_releases_none(c1);
        lemma_creations_none(c1);
        assert(s0.run(replies) == (s1.run(r1).0, c1 + s1.run(r1).1));
        lemma_releases_concat(c1, s1.run(r1).1);
        lemma_creations_concat(c1, s1.run(r1).1);
        if r1.len() == 0 || !s1.accepts(r1.first()) {
            assert(s1.run(r1) == (s1, none));
        } else {
            let (s2, c2) = s1.step(r1.first());
            let r2 = r1.drop_first();
            lemma_releases_none(c2);
            lemma_creations_none(c2);
            assert(s1.run(r1) == (s2.run(r2).0, c2 + s2.run(r2).1));
            lemma_releases_concat(c2, s2.run(r2).1);
            lemma_creations_concat(c2, s2.run(r2).1);
            if r2.len() == 0 || !s2.accepts(r2.first()) {
                assert(s2.run(r2) == (s2, none));
            } else {
                let (s3, c3) = s2.step(r2.first());
                let r3 = r2.drop_first();
                lemma_releases_none(c3);
                lemma_creations_none(c3);
                assert(s2.run(r2) == (s3.run(r3).0, c3 + s3.run(r3).1));
                lemma_releases_concat(c3, s3.run(r3).1);
                lemma_creations_concat(c3, s3.run(r3).1);
                if r3.len() == 0 || !s3.accepts(r3.first()) {
                    assert(s3.run(r3) == (s3, none));
                } else {
                    let (s4, c4) = s3.step(r3.first());
                    let r4 = r3.drop_first();
                    assert(releases(c4) == seq![CallView::DeleteProgram { program: id }]) by {
                        reveal_with_fuel(releases, 2);
                        assert(c4.drop_last() =~= none);
                    }
                    lemma_creations_none(c4);
                    assert(s4.run(r4) == (s4, none));
                    assert(s3.run(r3) == (s4, c4 + none));
                    lemma_releases_concat(c4, none);
                    lemma_creations_concat(c4, none);
                }
            }
        }
    }
}

/// A link waits on the last call that it handed out: what it takes is
/// exactly what the driver can answer to that call. This holds of the batch
/// that opens it and of every batch after which it is still under way. The
/// calls before the last, and all the calls of a batch that ends the link, are
/// answered by nothing.
pub proof fn lemma_link_takes_its_answers(
    state: ProgramLinkView,
    reply: ReplyView,
    answer: ReplyView,
)
    requires
        state.accepts(reply),
    ensures
        state is Creating ==> ProgramLinkView::first_calls().last().answered_by(reply),
        !state.step(reply).0.finished() ==> state.step(reply).1.len() > 0 && (state.step(
            reply,
        ).0.accepts(answer) <==> state.step(reply).1.last().answered_by(answer)),
        forall|i: int|
            0 <= i < state.step(reply).1.len() && (i < state.step(reply).1.len() - 1 || state.step(
                reply,
            ).0.finished()) ==> (#[trigger] state.step(reply).1[i]).answered_by(
                ReplyView::Nothing,
            ),
{
}

} // verus!
