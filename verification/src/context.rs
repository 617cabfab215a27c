//! The context: shader text synthesis and the commands of every operation.

use crate::buffer::{Buffer, BufferView, ElementBuffer, VertexBuffer};
use crate::bytes::{cast_words, native_words};
use crate::device::{
    command_views, made_view, plan_view, BufferTarget, Command, CommandView, TextureParameter,
    TextureSetting,
};
use crate::error::{outcome_view, GolemError, GolemErrorView};
use crate::linking::{begin, Progress, ShaderBuild};
use crate::objects::{channels, ColorFormat, Surface, Texture, TextureView};
use crate::program::{
    attribute_line, attribute_views, uniform_line, uniform_views, Attribute, AttributeView,
    Position, ShaderDescription, ShaderStage, Target, Uniform, UniformView,
};
use vstd::prelude::*;
use vstd::seq_lib::lemma_flatten_concat;
use vstd::slice::slice_to_vec;

verus! {

broadcast use Seq::lemma_flatten_push;

/// The lines that open a shader's text on the given target.
pub open spec fn preamble(target: Target) -> Seq<char> {
    match target {
        Target::Desktop => "#version 150\n"@ + "precision mediump float;\n"@,
        Target::Web => "precision mediump float;\n"@,
    }
}

/// The declaration lines of a list of attributes, in order.
pub open spec fn attribute_lines(
    target: Target,
    stage: ShaderStage,
    position: Position,
    attributes: Seq<AttributeView>,
) -> Seq<Seq<char>> {
    attributes.map_values(|a: AttributeView| attribute_line(target, stage, position, a))
}

/// The declaration lines of a list of uniforms, in order.
pub open spec fn uniform_lines(uniforms: Seq<UniformView>) -> Seq<Seq<char>> {
    uniforms.map_values(|u: UniformView| uniform_line(u))
}

/// The declaration lines of one stage: its inputs, then its outputs, then the uniforms.
pub open spec fn declarations(
    target: Target,
    stage: ShaderStage,
    inputs: Seq<AttributeView>,
    outputs: Seq<AttributeView>,
    uniforms: Seq<UniformView>,
) -> Seq<Seq<char>> {
    attribute_lines(target, stage, Position::Input, inputs) + attribute_lines(
        target,
        stage,
        Position::Output,
        outputs,
    ) + uniform_lines(uniforms)
}

/// The complete source text of one stage: the preamble, the declaration
/// lines, and the body as it was given.
pub open spec fn shader_text(
    target: Target,
    stage: ShaderStage,
    body: Seq<char>,
    inputs: Seq<AttributeView>,
    outputs: Seq<AttributeView>,
    uniforms: Seq<UniformView>,
) -> Seq<char> {
    preamble(target) + declarations(target, stage, inputs, outputs, uniforms).flatten() + body
}

/// Appends the declaration line of each attribute to `shader`.
fn declare_attributes(
    target: Target,
    stage: ShaderStage,
    position: Position,
    attributes: &[Attribute],
    shader: &mut String,
)
    ensures
        final(shader)@ == old(shader)@ + attribute_lines(
            target,
            stage,
            position,
            attribute_views(attributes@),
        ).flatten(),
{
    let ghost lines = attribute_lines(target, stage, position, attribute_views(attributes@));
    let mut i: usize = 0;
    assert(shader@ =~= old(shader)@ + lines.take(0).flatten());
    while i < attributes.len()
        invariant
            i <= attributes.len(),
            lines == attribute_lines(target, stage, position, attribute_views(attributes@)),
            shader@ == old(shader)@ + lines.take(i as int).flatten(),
        decreases attributes.len() - i,
    {
        attributes[i].as_glsl(target, stage, position, shader);
        assert(lines.take(i + 1) =~= lines.take(i as int).push(lines[i as int]));
        assert(shader@ =~= old(shader)@ + lines.take(i + 1).flatten());
        i += 1;
    }
    assert(lines.take(i as int) =~= lines);
}

/// Appends the declaration line of each uniform to `shader`.
fn declare_uniforms(uniforms: &[Uniform], shader: &mut String)
    ensures
        final(shader)@ == old(shader)@ + uniform_lines(uniform_views(uniforms@)).flatten(),
{
    let ghost lines = uniform_lines(uniform_views(uniforms@));
    let mut i: usize = 0;
    assert(shader@ =~= old(shader)@ + lines.take(0).flatten());
    while i < uniforms.len()
        invariant
            i <= uniforms.len(),
            lines == uniform_lines(uniform_views(uniforms@)),
            shader@ == old(shader)@ + lines.take(i as int).flatten(),
        decreases uniforms.len() - i,
    {
        uniforms[i].as_glsl(shader);
        assert(lines.take(i + 1) =~= lines.take(i as int).push(lines[i as int]));
        assert(shader@ =~= old(shader)@ + lines.take(i + 1).flatten());
        i += 1;
    }
    assert(lines.take(i as int) =~= lines);
}

/// Synthesizes the complete source text of one stage from its body and the
/// variables declared for it.
pub fn generate_shader_text(
    target: Target,
    stage: ShaderStage,
    body: &str,
    inputs: &[Attribute],
    outputs: &[Attribute],
    uniforms: &[Uniform],
) -> (shader: String)
    ensures
        shader@ == shader_text(
            target,
            stage,
            body@,
            attribute_views(inputs@),
            attribute_views(outputs@),
            uniform_views(uniforms@),
        ),
{
    let mut shader = String::new();
    match target {
        Target::Desktop => shader.append("#version 150\n"),
        Target::Web => {},
    }
    shader.append("precision mediump float;\n");
    assert(shader@ =~= preamble(target));
    declare_attributes(target, stage, Position::Input, inputs, &mut shader);
    declare_attributes(target, stage, Position::Output, outputs, &mut shader);
    declare_uniforms(uniforms, &mut shader);
    shader.append(body);
    proof {
        let a = attribute_lines(target, stage, Position::Input, attribute_views(inputs@));
        let b = attribute_lines(target, stage, Position::Output, attribute_views(outputs@));
        let c = uniform_lines(uniform_views(uniforms@));
        lemma_flatten_concat(a, b);
        lemma_flatten_concat(a + b, c);
        assert(shader@ =~= preamble(target) + (a + b + c).flatten() + body@);
    }
    shader
}

/// Shader-source synthesis declares every variable once: a stage's text
/// has one declaration line for each of its attributes and uniforms, each
/// line ends with a semicolon and a line break, and the text is the preamble,
/// those lines and the body, in that order.
pub proof fn lemma_declaration_lines(
    target: Target,
    stage: ShaderStage,
    body: Seq<char>,
    inputs: Seq<AttributeView>,
    outputs: Seq<AttributeView>,
    uniforms: Seq<UniformView>,
)
    ensures
        declarations(target, stage, inputs, outputs, uniforms).len() == inputs.len()
            + outputs.len() + uniforms.len(),
        forall|i: int|
            0 <= i < declarations(target, stage, inputs, outputs, uniforms).len() ==> {
                let line = #[trigger] declarations(target, stage, inputs, outputs, uniforms)[i];
                line.len() >= 2 && line[line.len() - 2] == ';' && line.last() == '\n'
            },
        shader_text(target, stage, body, inputs, outputs, uniforms) == preamble(target)
            + declarations(target, stage, inputs, outputs, uniforms).flatten() + body,
{
    reveal_strlit(";\n");
}

/// Shader-source synthesis is deterministic: a stage's text is a function
/// of what the body and the variables stand for, so that inputs that are
/// equal, character for character, give texts that are equal, character for
/// character, however often the text is made.
pub proof fn lemma_shader_text_deterministic(
    target: Target,
    stage: ShaderStage,
    body_a: &str,
    inputs_a: &[Attribute],
    outputs_a: &[Attribute],
    uniforms_a: &[Uniform],
    body_b: &str,
    inputs_b: &[Attribute],
    outputs_b: &[Attribute],
    uniforms_b: &[Uniform],
)
    requires
        body_a@ == body_b@,
        attribute_views(inputs_a@) == attribute_views(inputs_b@),
        attribute_views(outputs_a@) == attribute_views(outputs_b@),
        uniform_views(uniforms_a@) == uniform_views(uniforms_b@),
    ensures
        shader_text(
            target,
            stage,
            body_a@,
            attribute_views(inputs_a@),
            attribute_views(outputs_a@),
            uniform_views(uniforms_a@),
        ) == shader_text(
            target,
            stage,
            body_b@,
            attribute_views(inputs_b@),
            attribute_views(outputs_b@),
            uniform_views(uniforms_b@),
        ),
{
}

/// The owner of a device's state on the library's side. It knows the kind of
/// device it drives and the device's default vertex-array state, and computes
/// the commands of every operation.
#[derive(Debug, PartialEq, Eq)]
pub struct Context {
    target: Target,
    vao: u32,
}

/// What a [`Context`] stands for: its target, and the identity of the default
/// vertex-array state, which is 0 on a web target, where there is none.
pub struct ContextView {
    pub target: Target,
    pub vao: u32,
}

impl View for Context {
    type V = ContextView;

    closed spec fn view(&self) -> ContextView {
        ContextView { target: self.target, vao: self.vao }
    }
}

/// The context for a device of kind `target`, and the commands that set the
/// device up for it. `vertex_array` is the device's answer to the request
/// for a vertex-array state, which only a desktop target needs: there a
/// refusal is an error, and the state is bound once and for all.
pub open spec fn context_setup(target: Target, vertex_array: Option<u32>) -> Result<
    (ContextView, Seq<CommandView>),
    GolemErrorView,
> {
    match target {
        Target::Desktop => match vertex_array {
            Some(array) => Ok(
                (
                    ContextView { target, vao: array },
                    seq![CommandView::BindVertexArray { array }],
                ),
            ),
            None => Err(GolemErrorView::ResourceAllocation),
        },
        Target::Web => Ok((ContextView { target, vao: 0 }, Seq::empty())),
    }
}

/// The buffer that comes of the device's answer to the request for a buffer
/// identity: one without a store, or an error where the device refused.
pub open spec fn buffer_creation(identity: Option<u32>) -> Result<BufferView, GolemErrorView> {
    match identity {
        Some(id) => Ok(BufferView { id, capacity: 0 }),
        None => Err(GolemErrorView::ResourceAllocation),
    }
}

/// Whether a write of `len` bytes at byte `start` needs more room than
/// `capacity` bytes.
pub open spec fn outgrows(capacity: nat, start: nat, len: nat) -> bool {
    start + len > capacity
}

/// The capacity after such a write: twice the bytes that the write reaches
/// where it needs more room, and the old capacity where it does not.
pub open spec fn grown_capacity(capacity: nat, start: nat, len: nat) -> nat {
    if outgrows(capacity, start, len) {
        2 * (start + len)
    } else {
        capacity
    }
}

/// Whether the device can address the bytes that the write reaches and, where
/// the write needs more room, the store that it calls for.
pub open spec fn upload_fits(capacity: nat, start: nat, len: nat) -> bool {
    &&& start + len <= i32::MAX
    &&& outgrows(capacity, start, len) ==> 2 * (start + len) <= i32::MAX
}

/// The commands of a write into the buffer bound to `target`: a new store
/// first where the write needs more room, then the bytes.
pub open spec fn write_commands(
    target: BufferTarget,
    capacity: nat,
    start: nat,
    data: Seq<u8>,
) -> Seq<CommandView> {
    let write = CommandView::BufferSubData { target, offset: start as i32, data };
    if outgrows(capacity, start, data.len()) {
        seq![
            CommandView::BufferDataSize { target, size: (2 * (start + data.len())) as i32 },
            write,
        ]
    } else {
        seq![write]
    }
}

/// What an upload of `data` at byte `start` comes to: the buffer afterwards,
/// and the commands (bind, then write). Where the device cannot address the
/// store that the write calls for, the buffer stays as it is and the outcome
/// is `BufferBoundsViolation`.
pub open spec fn upload_outcome(
    buffer: BufferView,
    target: BufferTarget,
    start: nat,
    data: Seq<u8>,
) -> (BufferView, Result<Seq<CommandView>, GolemErrorView>) {
    if upload_fits(buffer.capacity, start, data.len()) {
        (
            BufferView {
                id: buffer.id,
                capacity: grown_capacity(buffer.capacity, start, data.len()),
            },
            Ok(
                seq![CommandView::BindBuffer { target, buffer: buffer.id }] + write_commands(
                    target,
                    buffer.capacity,
                    start,
                    data,
                ),
            ),
        )
    } else {
        (buffer, Err(GolemErrorView::BufferBoundsViolation))
    }
}

/// Whether `len` bytes are the pixels of an image of the given size and
/// format, and the device can take the size.
pub open spec fn texture_fits(len: nat, width: u32, height: u32, format: ColorFormat) -> bool {
    &&& width <= i32::MAX
    &&& height <= i32::MAX
    &&& len == width * height * channels(format)
}

/// The commands that fill a new texture: bind it, clamp it to its edges and
/// filter it linearly in both directions, hand over the pixels, unbind.
pub open spec fn texture_commands(
    id: u32,
    pixels: Seq<u8>,
    width: u32,
    height: u32,
    format: ColorFormat,
) -> Seq<CommandView> {
    seq![
        CommandView::BindTexture { texture: Some(id) },
        CommandView::TexParameter {
            parameter: TextureParameter::WrapS,
            value: TextureSetting::ClampToEdge,
        },
        CommandView::TexParameter {
            parameter: TextureParameter::WrapT,
            value: TextureSetting::ClampToEdge,
        },
        CommandView::TexParameter {
            parameter: TextureParameter::MinFilter,
            value: TextureSetting::Linear,
        },
        CommandView::TexParameter {
            parameter: TextureParameter::MagFilter,
            value: TextureSetting::Linear,
        },
        CommandView::TexImage2D { width: width as i32, height: height as i32, format, pixels },
        CommandView::BindTexture { texture: None },
    ]
}

/// What the creation of a texture comes to. Pixels that are not exactly
/// those of the image are turned down with `BufferBoundsViolation`, whether
/// they are too few or too many; a refused identity is `ResourceAllocation`.
pub open spec fn texture_creation(
    identity: Option<u32>,
    pixels: Seq<u8>,
    width: u32,
    height: u32,
    format: ColorFormat,
) -> Result<(TextureView, Seq<CommandView>), GolemErrorView> {
    if !texture_fits(pixels.len(), width, height, format) {
        Err(GolemErrorView::BufferBoundsViolation)
    } else {
        match identity {
            Some(id) => Ok(
                (TextureView { id, format }, texture_commands(id, pixels, width, height, format)),
            ),
            None => Err(GolemErrorView::ResourceAllocation),
        }
    }
}

/// The commands that bind a texture to a texture unit.
pub open spec fn texture_binding(texture: TextureView, unit: u32) -> Seq<CommandView> {
    seq![
        CommandView::ActiveTexture { unit },
        CommandView::BindTexture { texture: Some(texture.id) },
    ]
}

/// The commands of a clear. The buffers are cleared first, with the colour
/// that an earlier clear set, and the new colour is set for the clears to come.
pub open spec fn clear_commands(red: u32, green: u32, blue: u32, alpha: u32) -> Seq<
    CommandView,
> {
    seq![CommandView::Clear, CommandView::ClearColor { red, green, blue, alpha }]
}

impl Context {
    /// The kind of device that the context drives.
    pub fn target(&self) -> (target: Target)
        ensures
            target == self@.target,
    {
        self.target
    }

    /// The identity of the default vertex-array state.
    pub fn vao(&self) -> (vao: u32)
        ensures
            vao == self@.vao,
    {
        self.vao
    }

    /// Makes the context for a device of kind `target`. `vertex_array` is the
    /// device's answer to the request for a vertex-array state; a web target
    /// needs none and ignores it. With the context come the commands that
    /// set the device up.
    pub fn from_glow(target: Target, vertex_array: Option<u32>) -> (result: Result<
        (Context, Vec<Command>),
        GolemError,
    >)
        ensures
            made_view(result) == context_setup(target, vertex_array),
    {
        let mut commands: Vec<Command> = Vec::new();
        match target {
            Target::Desktop => match vertex_array {
                Some(array) => {
                    commands.push(Command::BindVertexArray { array });
                    assert(command_views(commands@) =~= seq![
                        CommandView::BindVertexArray { array },
                    ]);
                    Ok((Context { target, vao: array }, commands))
                },
                None => Err(GolemError::ResourceAllocation),
            },
            Target::Web => {
                assert(command_views(commands@) =~= Seq::empty());
                Ok((Context { target, vao: 0 }, commands))
            },
        }
    }

    /// Starts the build of a shader program. The build goes on with
    /// [`ShaderBuild::step`] until it is done.
    pub fn new_shader(&self, desc: ShaderDescription) -> (progress: Progress)
        ensures
            progress@ == begin(self@.target, desc@),
    {
        ShaderBuild::start(self.target, desc)
    }

    /// Makes a buffer of the device's answer to the request for a buffer identity.
    pub fn new_buffer(&self, identity: Option<u32>) -> (result: Result<Buffer, GolemError>)
        ensures
            outcome_view(result) == buffer_creation(identity),
    {
        match identity {
            Some(id) => Ok(Buffer::new(id)),
            None => Err(GolemError::ResourceAllocation),
        }
    }

    /// Makes a vertex buffer of the device's answer to the request for a
    /// buffer identity.
    pub fn new_vertex_buffer(&self, identity: Option<u32>) -> (result: Result<
        VertexBuffer,
        GolemError,
    >)
        ensures
            outcome_view(result) == buffer_creation(identity),
    {
        match self.new_buffer(identity) {
            Ok(buffer) => Ok(VertexBuffer::new(buffer)),
            Err(error) => Err(error),
        }
    }

    /// Makes an index buffer of the device's answer to the request for a
    /// buffer identity.
    pub fn new_element_buffer(&self, identity: Option<u32>) -> (result: Result<
        ElementBuffer,
        GolemError,
    >)
        ensures
            outcome_view(result) == buffer_creation(identity),
    {
        match self.new_buffer(identity) {
            Ok(buffer) => Ok(ElementBuffer::new(buffer)),
            Err(error) => Err(error),
        }
    }

    /// Makes a texture of `image`, the pixels of an image of `width` by
    /// `height` in the format `color`, and of the device's answer to the
    /// request for a texture identity. With the texture come the commands
    /// that fill it.
    pub fn new_texture(
        &self,
        identity: Option<u32>,
        image: &[u8],
        width: u32,
        height: u32,
        color: ColorFormat,
    ) -> (result: Result<(Texture, Vec<Command>), GolemError>)
        ensures
            made_view(result) == texture_creation(identity, image@, width, height, color),
    {
        if width > 0x7FFF_FFFF || height > 0x7FFF_FFFF {
            return Err(GolemError::BufferBoundsViolation);
        }
        assert(width * height <= 0x7FFF_FFFF * 0x7FFF_FFFF) by (nonlinear_arith)
            requires
                width <= 0x7FFF_FFFF,
                height <= 0x7FFF_FFFF,
        ;
        let pixels: u64 = (width as u64) * (height as u64);
        let bytes: u64 = pixels * color.channels();
        if image.len() as u64 != bytes {
            return Err(GolemError::BufferBoundsViolation);
        }
        match identity {
            Some(id) => {
                let mut commands: Vec<Command> = Vec::new();
                commands.push(Command::BindTexture { texture: Some(id) });
                commands.push(
                    Command::TexParameter {
                        parameter: TextureParameter::WrapS,
                        value: TextureSetting::ClampToEdge,
                    },
                );
                commands.push(
                    Command::TexParameter {
                        parameter: TextureParameter::WrapT,
                        value: TextureSetting::ClampToEdge,
                    },
                );
                commands.push(
                    Command::TexParameter {
                        parameter: TextureParameter::MinFilter,
                        value: TextureSetting::Linear,
                    },
                );
                commands.push(
                    Command::TexParameter {
                        parameter: TextureParameter::MagFilter,
                        value: TextureSetting::Linear,
                    },
                );
                commands.push(
                    Command::TexImage2D {
                        width: width as i32,
                        height: height as i32,
                        format: color,
                        pixels: slice_to_vec(image),
                    },
                );
                commands.push(Command::BindTexture { texture: None });
                assert(command_views(commands@) =~= texture_commands(
                    id,
                    image@,
                    width,
                    height,
                    color,
                ));
                Ok((Texture::new(id, color), commands))
            },
            None => Err(GolemError::ResourceAllocation),
        }
    }

    /// The commands that bind `tex` to the texture unit `texture_unit`.
    /// Whether the device has that many units is the caller's concern.
    pub fn bind_texture(&self, tex: &Texture, texture_unit: u32) -> (commands: Vec<Command>)
        ensures
            command_views(commands@) == texture_binding(tex@, texture_unit),
    {
        let mut commands: Vec<Command> = Vec::new();
        commands.push(Command::ActiveTexture { unit: texture_unit });
        commands.push(Command::BindTexture { texture: Some(tex.id()) });
        assert(command_views(commands@) =~= texture_binding(tex@, texture_unit));
        commands
    }

    /// The command that binds `buffer` to `target`.
    pub fn bind(&self, buffer: &Buffer, target: BufferTarget) -> (command: Command)
        ensures
            command@ == (CommandView::BindBuffer { target, buffer: buffer@.id }),
    {
        Command::BindBuffer { target, buffer: buffer.id() }
    }

    /// Writes `bytes` into `buffer` from byte `start` on, through the binding
    /// point `target`. Where the write reaches past the buffer's capacity,
    /// the buffer first gets a store of twice the bytes that the write
    /// reaches; what it held before is lost with the old store. The
    /// capacity never shrinks, and after a write that was accepted it covers
    /// the write.
    pub fn upload(
        &self,
        buffer: &mut Buffer,
        target: BufferTarget,
        start: usize,
        bytes: &[u8],
    ) -> (result: Result<Vec<Command>, GolemError>)
        ensures
            (final(buffer)@, plan_view(result)) == upload_outcome(
                old(buffer)@,
                target,
                start as nat,
                bytes@,
            ),
            old(buffer)@.capacity <= final(buffer)@.capacity,
            result is Ok ==> start + bytes@.len() <= final(buffer)@.capacity,
    {
        let capacity = buffer.capacity();
        let len = bytes.len();
        let grows = start > capacity || len > capacity - start;
        if grows && (start > 0x3FFF_FFFF || len > 0x3FFF_FFFF - start) {
            return Err(GolemError::BufferBoundsViolation);
        }
        let mut commands: Vec<Command> = Vec::new();
        commands.push(self.bind(buffer, target));
        if grows {
            let size: usize = 2 * (start + len);
            commands.push(Command::BufferDataSize { target, size: size as i32 });
            buffer.grow(size);
        }
        commands.push(
            Command::BufferSubData { target, offset: start as i32, data: slice_to_vec(bytes) },
        );
        assert(command_views(commands@) =~= seq![
            CommandView::BindBuffer { target, buffer: old(buffer)@.id },
        ] + write_commands(target, old(buffer)@.capacity, start as nat, bytes@));
        Ok(commands)
    }

    /// Writes the 32-bit words `data` into `buffer` from word `start` on, as
    /// the bytes that they are in memory. An index is such a word, and so is
    /// a float, as its bits.
    pub fn send_data(
        &self,
        buffer: &mut Buffer,
        target: BufferTarget,
        start: usize,
        data: &[u32],
    ) -> (result: Result<Vec<Command>, GolemError>)
        ensures
            exists|bytes: Seq<u8>|
                native_words(data@, bytes) && (final(buffer)@, plan_view(result))
                    == #[trigger] upload_outcome(old(buffer)@, target, (4 * start) as nat, bytes),
            old(buffer)@.capacity <= final(buffer)@.capacity,
            result is Ok ==> 4 * start + 4 * data@.len() <= final(buffer)@.capacity,
    {
        let bytes = cast_words(data);
        if start > 0x1FFF_FFFF {
            assert((buffer@, Err::<Seq<CommandView>, _>(GolemErrorView::BufferBoundsViolation))
                == upload_outcome(buffer@, target, (4 * start) as nat, bytes@));
            return Err(GolemError::BufferBoundsViolation);
        }
        let result = self.upload(buffer, target, 4 * start, bytes);
        assert((buffer@, plan_view(result)) == upload_outcome(
            old(buffer)@,
            target,
            (4 * start) as nat,
            bytes@,
        ));
        result
    }

    /// Rendering to a surface is not offered: the call changes nothing and
    /// says so.
    pub fn set_target(&mut self, surface: &Surface) -> (result: Result<(), GolemError>)
        ensures
            result matches Err(error) && error@ == GolemErrorView::UnsupportedOperation,
            final(self)@ == old(self)@,
    {
        Err(GolemError::UnsupportedOperation)
    }

    /// Goes back to the default render target, which is the only one: the
    /// call changes nothing.
    pub fn reset_target(&mut self)
        ensures
            final(self)@ == old(self)@,
    {
    }

    /// The commands of a clear with the given colour, each component a
    /// float as its bits.
    pub fn clear(&mut self, r: u32, g: u32, b: u32, a: u32) -> (commands: Vec<Command>)
        ensures
            command_views(commands@) == clear_commands(r, g, b, a),
            final(self)@ == old(self)@,
    {
        let mut commands: Vec<Command> = Vec::new();
        commands.push(Command::Clear);
        commands.push(Command::ClearColor { red: r, green: g, blue: b, alpha: a });
        assert(command_views(commands@) =~= clear_commands(r, g, b, a));
        commands
    }
}

/// The buffer after a sequence of uploads, each a start byte and the bytes
/// to write, made one after the other.
pub open spec fn buffer_after(
    buffer: BufferView,
    target: BufferTarget,
    writes: Seq<(nat, Seq<u8>)>,
) -> BufferView
    decreases writes.len(),
{
    if writes.len() == 0 {
        buffer
    } else {
        upload_outcome(
            buffer_after(buffer, target, writes.drop_last()),
            target,
            writes.last().0,
            writes.last().1,
        ).0
    }
}

/// Over any sequence of uploads the capacity never
/// shrinks: it is at least as large after the first `j` uploads as after the
/// first `i` of them. The buffer keeps its identity.
pub proof fn lemma_capacity_never_shrinks(
    buffer: BufferView,
    target: BufferTarget,
    writes: Seq<(nat, Seq<u8>)>,
    i: int,
    j: int,
)
    requires
        0 <= i <= j <= writes.len(),
    ensures
        buffer_after(buffer, target, writes.take(i)).capacity <= buffer_after(
            buffer,
            target,
            writes.take(j),
        ).capacity,
        buffer_after(buffer, target, writes.take(j)).id == buffer.id,
    decreases j,
{
    if j > 0 {
        assert(writes.take(j).drop_last() =~= writes.take(j - 1));
        if i < j {
            lemma_capacity_never_shrinks(buffer, target, writes, i, j - 1);
        } else {
            lemma_capacity_never_shrinks(buffer, target, writes, j - 1, j - 1);
        }
    }
}

/// After each upload of a sequence that was accepted, the
/// capacity covers the bytes that the upload reaches.
pub proof fn lemma_capacity_covers_write(
    buffer: BufferView,
    target: BufferTarget,
    writes: Seq<(nat, Seq<u8>)>,
    k: int,
)
    requires
        0 <= k < writes.len(),
        upload_outcome(
            buffer_after(buffer, target, writes.take(k)),
            target,
            writes[k].0,
            writes[k].1,
        ).1 is Ok,
    ensures
        writes[k].0 + writes[k].1.len() <= buffer_after(
            buffer,
            target,
            writes.take(k + 1),
        ).capacity,
{
    assert(writes.take(k + 1).drop_last() =~= writes.take(k));
    assert(writes.take(k + 1).last() == writes[k]);
}

} // verus!
