//! Building a shader program: a conversation with the device, in which the
//! library decides each step from the device's reply to the one before.

use crate::context::{generate_shader_text, shader_text};
use crate::device::{command_views, Command, CommandView};
use crate::error::{GolemError, GolemErrorView};
use crate::program::{
    attribute_views, layout_fits, packed_stride, Attribute, AttributeType, AttributeView,
    Dimension, ShaderDescription, ShaderDescriptionView, ShaderProgram, ShaderProgramView,
    ShaderStage, Target,
};
use crate::text::{replaced, substitute};
use vstd::prelude::*;

verus! {

/// What the driver of a build asks of the device, after it has carried out
/// the commands that came with the request.
#[derive(Clone, Copy, Debug, PartialEq, Eq, Structural)]
pub enum Request {
    /// Create a shader object for `stage`; reply with its identity.
    CreateShader { stage: ShaderStage },
    /// Reply with the compile status of `shader` and its diagnostic log.
    CompileStatus { shader: u32 },
    /// Create a program object; reply with its identity.
    CreateProgram,
    /// Reply with the link status of `program` and its diagnostic log.
    LinkStatus { program: u32 },
}

/// The device's reply to a request.
#[derive(Clone, Debug, PartialEq, Eq)]
pub enum Reply {
    /// The identity of the object that was created, or `None` where the
    /// device refused to create it.
    Created(Option<u32>),
    /// Whether the compilation or link succeeded, and the device's log.
    Status { ok: bool, log: String },
}

/// What a [`Reply`] stands for.
pub enum ReplyView {
    Created(Option<u32>),
    Status { ok: bool, log: Seq<char> },
}

impl View for Reply {
    type V = ReplyView;

    open spec fn view(&self) -> ReplyView {
        match *self {
            Reply::Created(id) => ReplyView::Created(id),
            Reply::Status { ok, log } => ReplyView::Status { ok, log: log@ },
        }
    }
}

/// The reply that a build waits for.
#[derive(Clone, Copy, Debug, PartialEq, Eq, Structural)]
pub enum Phase {
    /// The identity of the vertex stage.
    VertexShader,
    /// The compile status of the vertex stage.
    VertexCompile,
    /// The identity of the fragment stage.
    FragmentShader,
    /// The compile status of the fragment stage.
    FragmentCompile,
    /// The identity of the program.
    Program,
    /// The link status of the program.
    Link,
}

/// A build under way: what is being built, the reply it waits for, and the
/// identities received so far.
#[derive(Debug, PartialEq, Eq)]
pub struct ShaderBuild {
    target: Target,
    description: ShaderDescription,
    phase: Phase,
    vertex: u32,
    fragment: u32,
    program: u32,
}

/// What a [`ShaderBuild`] stands for. An identity that was not received yet is 0.
pub struct ShaderBuildView {
    pub target: Target,
    pub description: ShaderDescriptionView,
    pub phase: Phase,
    pub vertex: u32,
    pub fragment: u32,
    pub program: u32,
}

impl View for ShaderBuild {
    type V = ShaderBuildView;

    closed spec fn view(&self) -> ShaderBuildView {
        ShaderBuildView {
            target: self.target,
            description: self.description@,
            phase: self.phase,
            vertex: self.vertex,
            fragment: self.fragment,
            program: self.program,
        }
    }
}

/// Where a build stands after a step.
#[derive(Debug, PartialEq, Eq)]
pub enum Progress {
    /// The build goes on: carry out `commands` in order, put `request` to
    /// the device, and hand its reply to `state`.
    Ask { commands: Vec<Command>, request: Request, state: ShaderBuild },
    /// The build is over, with the program or with the reason why there is none.
    Done(Result<ShaderProgram, GolemError>),
}

/// What a [`Progress`] stands for.
pub enum ProgressView {
    Ask { commands: Seq<CommandView>, request: Request, state: ShaderBuildView },
    Done(Result<ShaderProgramView, GolemErrorView>),
}

impl View for Progress {
    type V = ProgressView;

    open spec fn view(&self) -> ProgressView {
        match *self {
            Progress::Ask { commands, request, state } => ProgressView::Ask {
                commands: command_views(commands@),
                request,
                state: state@,
            },
            Progress::Done(Ok(program)) => ProgressView::Done(Ok(program@)),
            Progress::Done(Err(error)) => ProgressView::Done(Err(error@)),
        }
    }
}

/// The source text of the vertex stage: its inputs are the vertex inputs,
/// its outputs are what the fragment stage receives.
pub open spec fn vertex_source(target: Target, description: ShaderDescriptionView) -> Seq<char> {
    shader_text(
        target,
        ShaderStage::Vertex,
        description.vertex_shader,
        description.vertex_input,
        description.fragment_input,
        description.uniforms,
    )
}

/// The outputs that a fragment stage declares: on a desktop target the
/// four-component colour `outputColor`, on a web target none, because the
/// implicit output is used there.
pub open spec fn fragment_outputs(target: Target) -> Seq<AttributeView> {
    match target {
        Target::Desktop => seq![
            AttributeView {
                name: "outputColor"@,
                value: AttributeType::Vector(Dimension::D4),
            },
        ],
        Target::Web => Seq::empty(),
    }
}

/// The body of a fragment stage as the target takes it: on a desktop target
/// every `gl_FragColor` is replaced by the declared output `outputColor`, on a
/// web target the body stays as it is.
pub open spec fn fragment_body(target: Target, body: Seq<char>) -> Seq<char> {
    match target {
        Target::Desktop => replaced(body, "gl_FragColor"@, "outputColor"@),
        Target::Web => body,
    }
}

/// The source text of the fragment stage.
pub open spec fn fragment_source(target: Target, description: ShaderDescriptionView) -> Seq<
    char,
> {
    shader_text(
        target,
        ShaderStage::Fragment,
        fragment_body(target, description.fragment_shader),
        description.fragment_input,
        fragment_outputs(target),
        description.uniforms,
    )
}

/// The commands that give a shader object its source text and compile it.
pub open spec fn compile_commands(shader: u32, source: Seq<char>) -> Seq<CommandView> {
    seq![CommandView::ShaderSource { shader, source }, CommandView::CompileShader { shader }]
}

/// The commands that bind each vertex input to the attribute index that is
/// its position in the declared order.
pub open spec fn attribute_bindings(program: u32, input: Seq<AttributeView>) -> Seq<CommandView> {
    Seq::new(
        input.len(),
        |i: int| CommandView::BindAttribLocation { program, index: i as u32, name: input[i].name },
    )
}

/// The command that binds the declared fragment output to colour number 0,
/// on a desktop target; a web target needs none.
pub open spec fn output_binding(target: Target, program: u32) -> Seq<CommandView> {
    match target {
        Target::Desktop => seq![
            CommandView::BindFragDataLocation { program, color: 0, name: "outputColor"@ },
        ],
        Target::Web => Seq::empty(),
    }
}

/// The commands that make a program of two compiled stages: attach both,
/// bind the fragment output and the vertex inputs, link.
pub open spec fn link_commands(
    target: Target,
    program: u32,
    vertex: u32,
    fragment: u32,
    input: Seq<AttributeView>,
) -> Seq<CommandView> {
    seq![
        CommandView::AttachShader { program, shader: vertex },
        CommandView::AttachShader { program, shader: fragment },
    ] + output_binding(target, program) + attribute_bindings(program, input)
        + seq![CommandView::LinkProgram { program }]
}

/// The first step of a build. A description whose vertex inputs no device
/// can address is turned down; any other starts with the request for the
/// vertex stage's identity.
pub open spec fn begin(target: Target, description: ShaderDescriptionView) -> ProgressView {
    if layout_fits(description.vertex_input) {
        ProgressView::Ask {
            commands: Seq::empty(),
            request: Request::CreateShader { stage: ShaderStage::Vertex },
            state: ShaderBuildView {
                target,
                description,
                phase: Phase::VertexShader,
                vertex: 0,
                fragment: 0,
                program: 0,
            },
        }
    } else {
        ProgressView::Done(Err(GolemErrorView::UnsupportedOperation))
    }
}

/// The step that a build takes on a reply.
///
/// The stages are created and compiled one after the other, vertex first,
/// then the program is created and linked. A refused identity ends the build
/// with `ResourceAllocation`, a failed compilation with `ShaderCompile` and
/// the stage and log, a failed link with `ShaderLink` and the log. A reply of
/// another kind than the build waits for ends it with `UnsupportedOperation`.
/// After a successful link the program holds the three identities, the vertex
/// inputs and the uniforms.
pub open spec fn advance(build: ShaderBuildView, reply: ReplyView) -> ProgressView {
    match (build.phase, reply) {
        (Phase::VertexShader, ReplyView::Created(Some(id))) => ProgressView::Ask {
            commands: compile_commands(id, vertex_source(build.target, build.description)),
            request: Request::CompileStatus { shader: id },
            state: ShaderBuildView { phase: Phase::VertexCompile, vertex: id, ..build },
        },
        (Phase::VertexCompile, ReplyView::Status { ok: true, log }) => ProgressView::Ask {
            commands: Seq::empty(),
            request: Request::CreateShader { stage: ShaderStage::Fragment },
            state: ShaderBuildView { phase: Phase::FragmentShader, ..build },
        },
        (Phase::VertexCompile, ReplyView::Status { ok: false, log }) => ProgressView::Done(
            Err(GolemErrorView::ShaderCompile { stage: ShaderStage::Vertex, log }),
        ),
        (Phase::FragmentShader, ReplyView::Created(Some(id))) => ProgressView::Ask {
            commands: compile_commands(id, fragment_source(build.target, build.description)),
            request: Request::CompileStatus { shader: id },
            state: ShaderBuildView { phase: Phase::FragmentCompile, fragment: id, ..build },
        },
        (Phase::FragmentCompile, ReplyView::Status { ok: true, log }) => ProgressView::Ask {
            commands: Seq::empty(),
            request: Request::CreateProgram,
            state: ShaderBuildView { phase: Phase::Program, ..build },
        },
        (Phase::FragmentCompile, ReplyView::Status { ok: false, log }) => ProgressView::Done(
            Err(GolemErrorView::ShaderCompile { stage: ShaderStage::Fragment, log }),
        ),
        (Phase::Program, ReplyView::Created(Some(id))) => ProgressView::Ask {
            commands: link_commands(
                build.target,
                id,
                build.vertex,
                build.fragment,
                build.description.vertex_input,
            ),
            request: Request::LinkStatus { program: id },
            state: ShaderBuildView { phase: Phase::Link, program: id, ..build },
        },
        (Phase::Link, ReplyView::Status { ok: true, log }) => ProgressView::Done(
            Ok(
                ShaderProgramView {
                    id: build.program,
                    vertex: build.vertex,
                    fragment: build.fragment,
                    input: build.description.vertex_input,
                    uniforms: build.description.uniforms,
                },
            ),
        ),
        (Phase::Link, ReplyView::Status { ok: false, log }) => ProgressView::Done(
            Err(GolemErrorView::ShaderLink { log }),
        ),
        (Phase::VertexShader, ReplyView::Created(None))
        | (Phase::FragmentShader, ReplyView::Created(None))
        | (Phase::Program, ReplyView::Created(None)) => ProgressView::Done(
            Err(GolemErrorView::ResourceAllocation),
        ),
        _ => ProgressView::Done(Err(GolemErrorView::UnsupportedOperation)),
    }
}

/// The commands that give `shader` the text `source` and compile it.
fn compile(shader: u32, source: String) -> (commands: Vec<Command>)
    ensures
        command_views(commands@) == compile_commands(shader, source@),
{
    let mut commands: Vec<Command> = Vec::new();
    commands.push(Command::ShaderSource { shader, source });
    commands.push(Command::CompileShader { shader });
    assert(command_views(commands@) =~= compile_commands(shader, source@));
    commands
}

/// The commands that make a program of two compiled stages.
fn link(
    target: Target,
    program: u32,
    vertex: u32,
    fragment: u32,
    input: &[Attribute],
) -> (commands: Vec<Command>)
    requires
        layout_fits(attribute_views(input@)),
    ensures
        command_views(commands@) == link_commands(
            target,
            program,
            vertex,
            fragment,
            attribute_views(input@),
        ),
{
    let ghost views = attribute_views(input@);
    let mut commands: Vec<Command> = Vec::new();
    commands.push(Command::AttachShader { program, shader: vertex });
    commands.push(Command::AttachShader { program, shader: fragment });
    match target {
        Target::Desktop => commands.push(
            Command::BindFragDataLocation {
                program,
                color: 0,
                name: String::from_str("outputColor"),
            },
        ),
        Target::Web => {},
    }
    let ghost head = seq![
        CommandView::AttachShader { program, shader: vertex },
        CommandView::AttachShader { program, shader: fragment },
    ] + output_binding(target, program);
    assert(command_views(commands@) =~= head);
    let mut i: usize = 0;
    while i < input.len()
        invariant
            i <= input.len(),
            input.len() <= u32::MAX,
            views == attribute_views(input@),
            command_views(commands@) == head + attribute_bindings(program, views.take(i as int)),
        decreases input.len() - i,
    {
        let ghost before = commands@;
        commands.push(
            Command::BindAttribLocation {
                program,
                index: i as u32,
                name: input[i].name.clone(),
            },
        );
        proof {
            let binding = CommandView::BindAttribLocation {
                program,
                index: i as u32,
                name: views[i as int].name,
            };
            assert(command_views(commands@) =~= command_views(before).push(binding));
            assert(attribute_bindings(program, views.take(i + 1)) =~= attribute_bindings(
                program,
                views.take(i as int),
            ).push(binding));
            assert(command_views(commands@) =~= head + attribute_bindings(
                program,
                views.take(i + 1),
            ));
        }
        i += 1;
    }
    assert(views.take(i as int) =~= views);
    commands.push(Command::LinkProgram { program });
    assert(command_views(commands@) =~= link_commands(target, program, vertex, fragment, views));
    commands
}

impl ShaderBuild {
    #[verifier::type_invariant]
    spec fn addressable(&self) -> bool {
        layout_fits(attribute_views(self.description.vertex_input@))
    }

    /// The first step of the build of `description` for `target`.
    pub(crate) fn start(target: Target, description: ShaderDescription) -> (progress: Progress)
        ensures
            progress@ == begin(target, description@),
    {
        match packed_stride(description.vertex_input.as_slice()) {
            Some(_) => {
                let commands: Vec<Command> = Vec::new();
                assert(command_views(commands@) =~= Seq::empty());
                Progress::Ask {
                    commands,
                    request: Request::CreateShader { stage: ShaderStage::Vertex },
                    state: ShaderBuild {
                        target,
                        description,
                        phase: Phase::VertexShader,
                        vertex: 0,
                        fragment: 0,
                        program: 0,
                    },
                }
            },
            None => Progress::Done(Err(GolemError::UnsupportedOperation)),
        }
    }

    /// The source text of the vertex stage.
    pub fn vertex_source(&self) -> (source: String)
        ensures
            source@ == vertex_source(self@.target, self@.description),
    {
        generate_shader_text(
            self.target,
            ShaderStage::Vertex,
            self.description.vertex_shader.as_str(),
            self.description.vertex_input.as_slice(),
            self.description.fragment_input.as_slice(),
            self.description.uniforms.as_slice(),
        )
    }

    /// The source text of the fragment stage.
    pub fn fragment_source(&self) -> (source: String)
        ensures
            source@ == fragment_source(self@.target, self@.description),
    {
        match self.target {
            Target::Desktop => {
                let body = substitute(
                    self.description.fragment_shader.as_str(),
                    "gl_FragColor",
                    "outputColor",
                );
                let mut outputs: Vec<Attribute> = Vec::new();
                outputs.push(Attribute::new("outputColor", AttributeType::Vector(Dimension::D4)));
                assert(attribute_views(outputs@) =~= fragment_outputs(Target::Desktop));
                generate_shader_text(
                    Target::Desktop,
                    ShaderStage::Fragment,
                    body.as_str(),
                    self.description.fragment_input.as_slice(),
                    outputs.as_slice(),
                    self.description.uniforms.as_slice(),
                )
            },
            Target::Web => {
                let outputs: Vec<Attribute> = Vec::new();
                assert(attribute_views(outputs@) =~= fragment_outputs(Target::Web));
                generate_shader_text(
                    Target::Web,
                    ShaderStage::Fragment,
                    self.description.fragment_shader.as_str(),
                    self.description.fragment_input.as_slice(),
                    outputs.as_slice(),
                    self.description.uniforms.as_slice(),
                )
            },
        }
    }

    /// Takes the step that the device's reply calls for.
    pub fn step(self, reply: Reply) -> (progress: Progress)
        ensures
            progress@ == advance(self@, reply@),
    {
        proof {
            use_type_invariant(&self);
        }
        match (self.phase, reply) {
            (Phase::VertexShader, Reply::Created(Some(id))) => {
                let commands = compile(id, self.vertex_source());
                let ShaderBuild { target, description, phase: _, vertex: _, fragment, program } =
                    self;
                Progress::Ask {
                    commands,
                    request: Request::CompileStatus { shader: id },
                    state: ShaderBuild {
                        target,
                        description,
                        phase: Phase::VertexCompile,
                        vertex: id,
                        fragment,
                        program,
                    },
                }
            },
            (Phase::VertexCompile, Reply::Status { ok, log }) => {
                if ok {
                    self.proceed(
                        Phase::FragmentShader,
                        Request::CreateShader { stage: ShaderStage::Fragment },
                    )
                } else {
                    Progress::Done(
                        Err(GolemError::ShaderCompile { stage: ShaderStage::Vertex, log }),
                    )
                }
            },
            (Phase::FragmentShader, Reply::Created(Some(id))) => {
                let commands = compile(id, self.fragment_source());
                let ShaderBuild { target, description, phase: _, vertex, fragment: _, program } =
                    self;
                Progress::Ask {
                    commands,
                    request: Request::CompileStatus { shader: id },
                    state: ShaderBuild {
                        target,
                        description,
                        phase: Phase::FragmentCompile,
                        vertex,
                        fragment: id,
                        program,
                    },
                }
            },
            (Phase::FragmentCompile, Reply::Status { ok, log }) => {
                if ok {
                    self.proceed(Phase::Program, Request::CreateProgram)
                } else {
                    Progress::Done(
                        Err(GolemError::ShaderCompile { stage: ShaderStage::Fragment, log }),
                    )
                }
            },
            (Phase::Program, Reply::Created(Some(id))) => {
                let commands = link(
                    self.target,
                    id,
                    self.vertex,
                    self.fragment,
                    self.description.vertex_input.as_slice(),
                );
                let ShaderBuild { target, description, phase: _, vertex, fragment, program: _ } =
                    self;
                Progress::Ask {
                    commands,
                    request: Request::LinkStatus { program: id },
                    state: ShaderBuild {
                        target,
                        description,
                        phase: Phase::Link,
                        vertex,
                        fragment,
                        program: id,
                    },
                }
            },
            (Phase::Link, Reply::Status { ok, log }) => {
                if ok {
                    let ShaderBuild { description, vertex, fragment, program, .. } = self;
                    Progress::Done(
                        Ok(
                            ShaderProgram::new(
                                program,
                                vertex,
                                fragment,
                                description.vertex_input,
                                description.uniforms,
                            ),
                        ),
                    )
                } else {
                    Progress::Done(Err(GolemError::ShaderLink { log }))
                }
            },
            (Phase::VertexShader, Reply::Created(None)) => Progress::Done(
                Err(GolemError::ResourceAllocation),
            ),
            (Phase::FragmentShader, Reply::Created(None)) => Progress::Done(
                Err(GolemError::ResourceAllocation),
            ),
            (Phase::Program, Reply::Created(None)) => Progress::Done(
                Err(GolemError::ResourceAllocation),
            ),
            _ => Progress::Done(Err(GolemError::UnsupportedOperation)),
        }
    }

    /// Goes on to `phase` with `request` and no commands.
    fn proceed(self, phase: Phase, request: Request) -> (progress: Progress)
        ensures
            progress@ == (ProgressView::Ask {
                commands: Seq::empty(),
                request,
                state: ShaderBuildView { phase, ..self@ },
            }),
    {
        proof {
            use_type_invariant(&self);
        }
        let ShaderBuild { target, description, phase: _, vertex, fragment, program } = self;
        let commands: Vec<Command> = Vec::new();
        assert(command_views(commands@) =~= Seq::empty());
        Progress::Ask {
            commands,
            request,
            state: ShaderBuild { target, description, phase, vertex, fragment, program },
        }
    }
}

/// The sources of a build are a function of what the description stands
/// for: two descriptions that are equal, character for character, give the
/// same vertex source and the same fragment source.
pub proof fn lemma_sources_deterministic(
    target: Target,
    a: ShaderDescription,
    b: ShaderDescription,
)
    requires
        a@ == b@,
    ensures
        vertex_source(target, a@) == vertex_source(target, b@),
        fragment_source(target, a@) == fragment_source(target, b@),
{
}

/// Where a build stands after the device's replies, taken one after the
/// other. A build that is done takes no more replies.
pub open spec fn progress_after(progress: ProgressView, replies: Seq<ReplyView>) -> ProgressView
    decreases replies.len(),
{
    if replies.len() == 0 {
        progress
    } else {
        match progress_after(progress, replies.drop_last()) {
            ProgressView::Ask { commands, request, state } => advance(state, replies.last()),
            ProgressView::Done(outcome) => ProgressView::Done(outcome),
        }
    }
}

/// The six replies of a device that grants the three identities and reports
/// each compilation and the link as successful.
pub open spec fn granted(
    vertex: u32,
    fragment: u32,
    program: u32,
    logs: Seq<Seq<char>>,
) -> Seq<ReplyView> {
    seq![
        ReplyView::Created(Some(vertex)),
        ReplyView::Status { ok: true, log: logs[0] },
        ReplyView::Created(Some(fragment)),
        ReplyView::Status { ok: true, log: logs[1] },
        ReplyView::Created(Some(program)),
        ReplyView::Status { ok: true, log: logs[2] },
    ]
}

/// A build on a device that grants every identity and reports success
/// throughout ends after six replies with the program: it has the identities
/// that the device gave, the vertex inputs in their declared order, and the
/// uniforms. Whatever the logs say of a success is not kept.
pub proof fn lemma_build_succeeds(
    target: Target,
    description: ShaderDescriptionView,
    vertex: u32,
    fragment: u32,
    program: u32,
    logs: Seq<Seq<char>>,
)
    requires
        layout_fits(description.vertex_input),
        logs.len() == 3,
    ensures
        progress_after(begin(target, description), granted(vertex, fragment, program, logs))
            == ProgressView::Done(
            Ok(
                ShaderProgramView {
                    id: program,
                    vertex,
                    fragment,
                    input: description.vertex_input,
                    uniforms: description.uniforms,
                },
            ),
        ),
{
    let start = begin(target, description);
    let replies = granted(vertex, fragment, program, logs);
    assert(replies.take(0) =~= Seq::empty());
    assert(progress_after(start, replies.take(0)) == start);
    lemma_progress_step(start, replies, 0);
    lemma_progress_step(start, replies, 1);
    lemma_progress_step(start, replies, 2);
    lemma_progress_step(start, replies, 3);
    lemma_progress_step(start, replies, 4);
    lemma_progress_step(start, replies, 5);
    assert(replies.take(6) =~= replies);
}

/// One more reply takes a build one step further.
pub proof fn lemma_progress_step(progress: ProgressView, replies: Seq<ReplyView>, n: int)
    requires
        0 <= n < replies.len(),
    ensures
        progress_after(progress, replies.take(n + 1)) == match progress_after(
            progress,
            replies.take(n),
        ) {
            ProgressView::Ask { commands, request, state } => advance(state, replies[n]),
            ProgressView::Done(outcome) => ProgressView::Done(outcome),
        },
{
    assert(replies.take(n + 1).drop_last() =~= replies.take(n));
    assert(replies.take(n + 1).last() == replies[n]);
}

/// The first failure ends a build: once it is done, further replies change
/// nothing.
pub proof fn lemma_done_stays_done(
    outcome: Result<ShaderProgramView, GolemErrorView>,
    replies: Seq<ReplyView>,
)
    ensures
        progress_after(ProgressView::Done(outcome), replies) == ProgressView::Done(outcome),
    decreases replies.len(),
{
    if replies.len() > 0 {
        lemma_done_stays_done(outcome, replies.drop_last());
    }
}

} // verus!
