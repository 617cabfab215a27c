//! The commands that the library asks a graphics device to carry out.
//!
//! The library never touches a device. Its operations compute the commands
//! that make up one piece of work, in the order in which the device must see
//! them; the program around the library carries them out.

use crate::error::{GolemError, GolemErrorView};
use crate::objects::ColorFormat;
use vstd::prelude::*;

verus! {

/// The binding point of a buffer: the role in which the device uses it.
#[derive(Clone, Copy, Debug, PartialEq, Eq, Structural)]
pub enum BufferTarget {
    /// Vertex attribute data.
    Vertex,
    /// Index data.
    Index,
}

/// A sampling parameter of a texture.
#[derive(Clone, Copy, Debug, PartialEq, Eq, Structural)]
pub enum TextureParameter {
    WrapS,
    WrapT,
    MinFilter,
    MagFilter,
}

/// A value of a sampling parameter.
#[derive(Clone, Copy, Debug, PartialEq, Eq, Structural)]
pub enum TextureSetting {
    ClampToEdge,
    Linear,
}

/// One command for the device. Sizes, strides, counts and offsets are signed
/// 32-bit numbers, as the device takes them; floats are held as their bits.
#[derive(Clone, Debug, PartialEq, Eq)]
#[allow(inconsistent_fields)]
pub enum Command {
    /// Make `array` the current vertex-array state.
    BindVertexArray { array: u32 },
    /// Replace the source text of `shader`.
    ShaderSource { shader: u32, source: String },
    /// Compile the source text of `shader`.
    CompileShader { shader: u32 },
    /// Attach the stage `shader` to `program`.
    AttachShader { program: u32, shader: u32 },
    /// Bind the fragment output `name` of `program` to colour number `color`.
    BindFragDataLocation { program: u32, color: u32, name: String },
    /// Bind the vertex input `name` of `program` to attribute index `index`.
    BindAttribLocation { program: u32, index: u32, name: String },
    /// Link the stages attached to `program`.
    LinkProgram { program: u32 },
    /// Make `program` the current program.
    UseProgram { program: u32 },
    /// Bind `buffer` to `target`.
    BindBuffer { target: BufferTarget, buffer: u32 },
    /// Give the buffer bound to `target` a new store of `size` bytes for
    /// streamed data. What the buffer held is lost.
    BufferDataSize { target: BufferTarget, size: i32 },
    /// Write `data` into the buffer bound to `target`, from byte `offset` on.
    BufferSubData { target: BufferTarget, offset: i32, data: Vec<u8> },
    /// Enable the vertex attribute array `index`.
    EnableVertexAttribArray { index: u32 },
    /// Read attribute `index` as `size` unnormalized floats, `offset` bytes
    /// into each record of `stride` bytes of the bound vertex buffer.
    VertexAttribPointer { index: u32, size: i32, stride: i32, offset: i32 },
    /// Find the uniform `name` of `program` and set it to one integer.
    Uniform1i { program: u32, name: String, x: i32 },
    /// Find the uniform `name` of `program` and set it to two integers.
    Uniform2i { program: u32, name: String, x: i32, y: i32 },
    /// Find the uniform `name` of `program` and set it to three integers.
    Uniform3i { program: u32, name: String, x: i32, y: i32, z: i32 },
    /// Find the uniform `name` of `program` and set it to four integers.
    Uniform4i { program: u32, name: String, x: i32, y: i32, z: i32, w: i32 },
    /// Find the uniform `name` of `program` and set it to one float.
    Uniform1f { program: u32, name: String, x: u32 },
    /// Find the uniform `name` of `program` and set it to two floats.
    Uniform2f { program: u32, name: String, x: u32, y: u32 },
    /// Find the uniform `name` of `program` and set it to three floats.
    Uniform3f { program: u32, name: String, x: u32, y: u32, z: u32 },
    /// Find the uniform `name` of `program` and set it to four floats.
    Uniform4f { program: u32, name: String, x: u32, y: u32, z: u32, w: u32 },
    /// Draw triangles from `count` 32-bit indices of the bound index buffer,
    /// the first of them `offset` bytes into it.
    DrawElements { count: i32, offset: i32 },
    /// Make texture unit `unit` the active one.
    ActiveTexture { unit: u32 },
    /// Bind `texture` as the 2D texture of the active unit; `None` unbinds.
    BindTexture { texture: Option<u32> },
    /// Set a sampling parameter of the bound 2D texture.
    TexParameter { parameter: TextureParameter, value: TextureSetting },
    /// Fill the bound 2D texture, stored with four channels, from `pixels`
    /// laid out in `format`, one byte per channel.
    TexImage2D { width: i32, height: i32, format: ColorFormat, pixels: Vec<u8> },
    /// Clear the colour and depth buffers.
    Clear,
    /// Set the colour that later clears paint.
    ClearColor { red: u32, green: u32, blue: u32, alpha: u32 },
}

/// What a [`Command`] stands for, with texts and data as sequences.
#[allow(inconsistent_fields)]
pub enum CommandView {
    BindVertexArray { array: u32 },
    ShaderSource { shader: u32, source: Seq<char> },
    CompileShader { shader: u32 },
    AttachShader { program: u32, shader: u32 },
    BindFragDataLocation { program: u32, color: u32, name: Seq<char> },
    BindAttribLocation { program: u32, index: u32, name: Seq<char> },
    LinkProgram { program: u32 },
    UseProgram { program: u32 },
    BindBuffer { target: BufferTarget, buffer: u32 },
    BufferDataSize { target: BufferTarget, size: i32 },
    BufferSubData { target: BufferTarget, offset: i32, data: Seq<u8> },
    EnableVertexAttribArray { index: u32 },
    VertexAttribPointer { index: u32, size: i32, stride: i32, offset: i32 },
    Uniform1i { program: u32, name: Seq<char>, x: i32 },
    Uniform2i { program: u32, name: Seq<char>, x: i32, y: i32 },
    Uniform3i { program: u32, name: Seq<char>, x: i32, y: i32, z: i32 },
    Uniform4i { program: u32, name: Seq<char>, x: i32, y: i32, z: i32, w: i32 },
    Uniform1f { program: u32, name: Seq<char>, x: u32 },
    Uniform2f { program: u32, name: Seq<char>, x: u32, y: u32 },
    Uniform3f { program: u32, name: Seq<char>, x: u32, y: u32, z: u32 },
    Uniform4f { program: u32, name: Seq<char>, x: u32, y: u32, z: u32, w: u32 },
    DrawElements { count: i32, offset: i32 },
    ActiveTexture { unit: u32 },
    BindTexture { texture: Option<u32> },
    TexParameter { parameter: TextureParameter, value: TextureSetting },
    TexImage2D { width: i32, height: i32, format: ColorFormat, pixels: Seq<u8> },
    Clear,
    ClearColor { red: u32, green: u32, blue: u32, alpha: u32 },
}

impl View for Command {
    type V = CommandView;

    open spec fn view(&self) -> CommandView {
        match *self {
            Command::BindVertexArray { array } => CommandView::BindVertexArray { array },
            Command::ShaderSource { shader, source } => CommandView::ShaderSource {
                shader,
                source: source@,
            },
            Command::CompileShader { shader } => CommandView::CompileShader { shader },
            Command::AttachShader { program, shader } => CommandView::AttachShader {
                program,
                shader,
            },
            Command::BindFragDataLocation {
                program,
                color,
                name,
            } => CommandView::BindFragDataLocation { program, color, name: name@ },
            Command::BindAttribLocation {
                program,
                index,
                name,
            } => CommandView::BindAttribLocation { program, index, name: name@ },
            Command::LinkProgram { program } => CommandView::LinkProgram { program },
            Command::UseProgram { program } => CommandView::UseProgram { program },
            Command::BindBuffer { target, buffer } => CommandView::BindBuffer { target, buffer },
            Command::BufferDataSize { target, size } => CommandView::BufferDataSize {
                target,
                size,
            },
            Command::BufferSubData { target, offset, data } => CommandView::BufferSubData {
                target,
                offset,
                data: data@,
            },
            Command::EnableVertexAttribArray { index } => CommandView::EnableVertexAttribArray {
                index,
            },
            Command::VertexAttribPointer {
                index,
                size,
                stride,
                offset,
            } => CommandView::VertexAttribPointer { index, size, stride, offset },
            Command::Uniform1i { program, name, x } => CommandView::Uniform1i {
                program,
                name: name@,
                x,
            },
            Command::Uniform2i { program, name, x, y } => CommandView::Uniform2i {
                program,
                name: name@,
                x,
                y,
            },
            Command::Uniform3i { program, name, x, y, z } => CommandView::Uniform3i {
                program,
                name: name@,
                x,
                y,
                z,
            },
            Command::Uniform4i { program, name, x, y, z, w } => CommandView::Uniform4i {
                program,
                name: name@,
                x,
                y,
                z,
                w,
            },
            Command::Uniform1f { program, name, x } => CommandView::Uniform1f {
                program,
                name: name@,
                x,
            },
            Command::Uniform2f { program, name, x, y } => CommandView::Uniform2f {
                program,
                name: name@,
                x,
                y,
            },
            Command::Uniform3f { program, name, x, y, z } => CommandView::Uniform3f {
                program,
                name: name@,
                x,
                y,
                z,
            },
            Command::Uniform4f { program, name, x, y, z, w } => CommandView::Uniform4f {
                program,
                name: name@,
                x,
                y,
                z,
                w,
            },
            Command::DrawElements { count, offset } => CommandView::DrawElements { count, offset },
            Command::ActiveTexture { unit } => CommandView::ActiveTexture { unit },
            Command::BindTexture { texture } => CommandView::BindTexture { texture },
            Command::TexParameter { parameter, value } => CommandView::TexParameter {
                parameter,
                value,
            },
            Command::TexImage2D { width, height, format, pixels } => CommandView::TexImage2D {
                width,
                height,
                format,
                pixels: pixels@,
            },
            Command::Clear => CommandView::Clear,
            Command::ClearColor { red, green, blue, alpha } => CommandView::ClearColor {
                red,
                green,
                blue,
                alpha,
            },
        }
    }
}

/// The views of a sequence of commands, in order.
pub open spec fn command_views(commands: Seq<Command>) -> Seq<CommandView> {
    commands.map_values(|c: Command| c@)
}

/// What the outcome of an operation that plans commands stands for: the
/// views of the commands, or the view of the error.
pub open spec fn plan_view(plan: Result<Vec<Command>, GolemError>) -> Result<
    Seq<CommandView>,
    GolemErrorView,
> {
    match plan {
        Ok(commands) => Ok(command_views(commands@)),
        Err(error) => Err(error@),
    }
}

/// What the outcome of an operation that makes something and plans commands
/// stands for: the view of what it made with the views of the commands, or
/// the view of the error.
pub open spec fn made_view<T: View>(outcome: Result<(T, Vec<Command>), GolemError>) -> Result<
    (T::V, Seq<CommandView>),
    GolemErrorView,
> {
    match outcome {
        Ok((made, commands)) => Ok((made@, command_views(commands@))),
        Err(error) => Err(error@),
    }
}

} // verus!
