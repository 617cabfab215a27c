//! Textures, uniform values and the entries of a draw list.

use crate::program::UniformType;
use std::ops::Range;
use vstd::prelude::*;

verus! {

/// The layout of the pixels handed to a texture upload.
#[derive(Clone, Copy, Debug, PartialEq, Eq, Structural)]
pub enum ColorFormat {
    /// Three bytes per pixel: red, green, blue.
    RGB,
    /// Four bytes per pixel: red, green, blue, alpha.
    RGBA,
}

/// The number of bytes that one pixel takes in the given format.
pub open spec fn channels(format: ColorFormat) -> int {
    match format {
        ColorFormat::RGB => 3,
        ColorFormat::RGBA => 4,
    }
}

impl ColorFormat {
    /// The number of bytes that one pixel takes.
    pub fn channels(&self) -> (n: u64)
        ensures
            n == channels(*self),
    {
        match self {
            ColorFormat::RGB => 3,
            ColorFormat::RGBA => 4,
        }
    }
}

/// A value for a uniform. A float is held as the 32 bits of its IEEE 754
/// single-precision encoding (`f32::to_bits`): the library hands floats on to
/// the device and never computes with them.
#[derive(Clone, Copy, Debug, PartialEq, Eq)]
pub enum UniformValue {
    Int(i32),
    IVector2([i32; 2]),
    IVector3([i32; 3]),
    IVector4([i32; 4]),
    Float(u32),
    Vector2([u32; 2]),
    Vector3([u32; 3]),
    Vector4([u32; 4]),
}

/// The uniform type that a value has.
pub open spec fn value_type(value: UniformValue) -> UniformType {
    match value {
        UniformValue::Int(_) => UniformType::Int,
        UniformValue::IVector2(_) => UniformType::IVector2,
        UniformValue::IVector3(_) => UniformType::IVector3,
        UniformValue::IVector4(_) => UniformType::IVector4,
        UniformValue::Float(_) => UniformType::Float,
        UniformValue::Vector2(_) => UniformType::Vector2,
        UniformValue::Vector3(_) => UniformType::Vector3,
        UniformValue::Vector4(_) => UniformType::Vector4,
    }
}

/// Whether a uniform declared with type `declared` takes `value`: the value
/// has the declared type, or the uniform is a sampler and the value is the
/// integer index of a texture unit.
pub open spec fn accepts(declared: UniformType, value: UniformValue) -> bool {
    value_type(value) == declared || (declared == UniformType::Sampler2D && value is Int)
}

impl UniformValue {
    /// The uniform type that the value has.
    pub fn uniform_type(&self) -> (t: UniformType)
        ensures
            t == value_type(*self),
    {
        match self {
            UniformValue::Int(_) => UniformType::Int,
            UniformValue::IVector2(_) => UniformType::IVector2,
            UniformValue::IVector3(_) => UniformType::IVector3,
            UniformValue::IVector4(_) => UniformType::IVector4,
            UniformValue::Float(_) => UniformType::Float,
            UniformValue::Vector2(_) => UniformType::Vector2,
            UniformValue::Vector3(_) => UniformType::Vector3,
            UniformValue::Vector4(_) => UniformType::Vector4,
        }
    }

    /// Whether a uniform declared with type `declared` takes this value.
    pub fn fits(&self, declared: UniformType) -> (b: bool)
        ensures
            b == accepts(declared, *self),
    {
        match (declared, self) {
            (UniformType::Int, UniformValue::Int(_)) => true,
            (UniformType::Sampler2D, UniformValue::Int(_)) => true,
            (UniformType::IVector2, UniformValue::IVector2(_)) => true,
            (UniformType::IVector3, UniformValue::IVector3(_)) => true,
            (UniformType::IVector4, UniformValue::IVector4(_)) => true,
            (UniformType::Float, UniformValue::Float(_)) => true,
            (UniformType::Vector2, UniformValue::Vector2(_)) => true,
            (UniformType::Vector3, UniformValue::Vector3(_)) => true,
            (UniformType::Vector4, UniformValue::Vector4(_)) => true,
            _ => false,
        }
    }
}

/// A GPU-resident 2D image.
#[derive(Clone, Copy, Debug, PartialEq, Eq)]
pub struct Texture {
    id: u32,
    format: ColorFormat,
}

/// What a [`Texture`] stands for: the identity the device gave it, and the
/// format of the pixels it was created from.
pub struct TextureView {
    pub id: u32,
    pub format: ColorFormat,
}

impl View for Texture {
    type V = TextureView;

    closed spec fn view(&self) -> TextureView {
        TextureView { id: self.id, format: self.format }
    }
}

impl Texture {
    pub(crate) fn new(id: u32, format: ColorFormat) -> (texture: Texture)
        ensures
            texture@ == (TextureView { id, format }),
    {
        Texture { id, format }
    }

    /// The identity that the device gave the texture.
    pub fn id(&self) -> (id: u32)
        ensures
            id == self@.id,
    {
        self.id
    }

    /// The format of the pixels that the texture was created from.
    pub fn format(&self) -> (format: ColorFormat)
        ensures
            format == self@.format,
    {
        self.format
    }
}

/// A render target other than the default one. Rendering to one is not offered.
#[derive(Clone, Copy, Debug, PartialEq, Eq, Structural)]
pub struct Surface {
    pub id: u32,
}

/// One entry of a draw list: a half-open range of indices, and the uniform
/// values to set, in order, right before that range is drawn.
#[derive(Debug, PartialEq, Eq)]
pub struct DrawList {
    pub range: Range<usize>,
    pub uniforms: Vec<(String, UniformValue)>,
}

/// What a [`DrawList`] entry stands for.
pub struct DrawListView {
    pub start: nat,
    pub end: nat,
    pub uniforms: Seq<(Seq<char>, UniformValue)>,
}

impl View for DrawList {
    type V = DrawListView;

    open spec fn view(&self) -> DrawListView {
        DrawListView {
            start: self.range.start as nat,
            end: self.range.end as nat,
            uniforms: self.uniforms@.map_values(|u: (String, UniformValue)| (u.0@, u.1)),
        }
    }
}

/// The views of the entries of a draw list, in order.
pub open spec fn draw_list_views(entries: Seq<DrawList>) -> Seq<DrawListView> {
    entries.map_values(|e: DrawList| e@)
}

} // verus!
