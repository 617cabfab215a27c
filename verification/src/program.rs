//! Declarative shader descriptions: attributes, uniforms, and the text of the
//! declarations that are synthesized from them.

use vstd::prelude::*;

verus! {

/// The kind of device a context drives. The two differ in shader dialect and in
/// how a fragment stage names its output.
#[derive(Clone, Copy, Debug, PartialEq, Eq, Structural)]
pub enum Target {
    /// Desktop-class device: versioned dialect with `in`/`out` declarations and
    /// an explicitly named fragment output.
    Desktop,
    /// Web-class device: unversioned dialect with `attribute`/`varying`
    /// declarations and the implicit fragment output.
    Web,
}

/// One of the two halves of a shader program.
#[derive(Clone, Copy, Debug, PartialEq, Eq, Structural)]
pub enum ShaderStage {
    Vertex,
    Fragment,
}

/// The direction of an attribute relative to a stage.
#[derive(Clone, Copy, Debug, PartialEq, Eq, Structural)]
pub enum Position {
    Input,
    Output,
}

/// The number of components of a vector.
#[derive(Clone, Copy, Debug, PartialEq, Eq, Structural)]
pub enum Dimension {
    D2,
    D3,
    D4,
}

/// The type of an attribute: one float, or a vector of floats.
#[derive(Clone, Copy, Debug, PartialEq, Eq, Structural)]
pub enum AttributeType {
    Scalar,
    Vector(Dimension),
}

/// The declared type of a uniform.
#[derive(Clone, Copy, Debug, PartialEq, Eq, Structural)]
pub enum UniformType {
    Int,
    IVector2,
    IVector3,
    IVector4,
    Float,
    Vector2,
    Vector3,
    Vector4,
    Sampler2D,
}

/// A named, typed per-vertex value.
#[derive(Clone, Debug, PartialEq, Eq)]
pub struct Attribute {
    pub name: String,
    pub value: AttributeType,
}

/// What an [`Attribute`] stands for: its name as a sequence of characters, and its type.
pub struct AttributeView {
    pub name: Seq<char>,
    pub value: AttributeType,
}

impl View for Attribute {
    type V = AttributeView;

    open spec fn view(&self) -> AttributeView {
        AttributeView { name: self.name@, value: self.value }
    }
}

/// A named, typed value that is constant over one draw call.
#[derive(Clone, Debug, PartialEq, Eq)]
pub struct Uniform {
    pub name: String,
    pub u_type: UniformType,
}

/// What a [`Uniform`] stands for.
pub struct UniformView {
    pub name: Seq<char>,
    pub u_type: UniformType,
}

impl View for Uniform {
    type V = UniformView;

    open spec fn view(&self) -> UniformView {
        UniformView { name: self.name@, u_type: self.u_type }
    }
}

/// The views of a sequence of attributes, in order.
pub open spec fn attribute_views(attributes: Seq<Attribute>) -> Seq<AttributeView> {
    attributes.map_values(|a: Attribute| a@)
}

/// The views of a sequence of uniforms, in order.
pub open spec fn uniform_views(uniforms: Seq<Uniform>) -> Seq<UniformView> {
    uniforms.map_values(|u: Uniform| u@)
}

/// The number of float components of an attribute type.
pub open spec fn components(value: AttributeType) -> int {
    match value {
        AttributeType::Scalar => 1,
        AttributeType::Vector(Dimension::D2) => 2,
        AttributeType::Vector(Dimension::D3) => 3,
        AttributeType::Vector(Dimension::D4) => 4,
    }
}

/// The dialect's name of an attribute type.
pub open spec fn glsl_name(value: AttributeType) -> Seq<char> {
    match value {
        AttributeType::Scalar => "float"@,
        AttributeType::Vector(Dimension::D2) => "vec2"@,
        AttributeType::Vector(Dimension::D3) => "vec3"@,
        AttributeType::Vector(Dimension::D4) => "vec4"@,
    }
}

/// The dialect's name of a uniform type.
pub open spec fn uniform_glsl_name(u_type: UniformType) -> Seq<char> {
    match u_type {
        UniformType::Int => "int"@,
        UniformType::IVector2 => "ivec2"@,
        UniformType::IVector3 => "ivec3"@,
        UniformType::IVector4 => "ivec4"@,
        UniformType::Float => "float"@,
        UniformType::Vector2 => "vec2"@,
        UniformType::Vector3 => "vec3"@,
        UniformType::Vector4 => "vec4"@,
        UniformType::Sampler2D => "sampler2D"@,
    }
}

/// The storage qualifier that opens an attribute's declaration. A desktop
/// target tells inputs from outputs; a web target tells per-vertex inputs of
/// the vertex stage from the values that pass between the stages.
pub open spec fn qualifier(target: Target, stage: ShaderStage, position: Position) -> Seq<char> {
    match target {
        Target::Desktop => match position {
            Position::Input => "in "@,
            Position::Output => "out "@,
        },
        Target::Web => if stage == ShaderStage::Vertex && position == Position::Input {
            "attribute "@
        } else {
            "varying "@
        },
    }
}

/// The declaration line of one attribute: qualifier, type, name, `;` and a line break.
pub open spec fn attribute_line(
    target: Target,
    stage: ShaderStage,
    position: Position,
    attribute: AttributeView,
) -> Seq<char> {
    qualifier(target, stage, position) + glsl_name(attribute.value) + " "@ + attribute.name
        + ";\n"@
}

/// The declaration line of one uniform. It is the same in both stages and on both targets.
pub open spec fn uniform_line(uniform: UniformView) -> Seq<char> {
    "uniform "@ + uniform_glsl_name(uniform.u_type) + " "@ + uniform.name + ";\n"@
}

impl AttributeType {
    /// The number of float components.
    pub fn size(&self) -> (n: i32)
        ensures
            n == components(*self),
    {
        match self {
            AttributeType::Scalar => 1,
            AttributeType::Vector(Dimension::D2) => 2,
            AttributeType::Vector(Dimension::D3) => 3,
            AttributeType::Vector(Dimension::D4) => 4,
        }
    }

    /// Appends the dialect's name of the type to `shader`.
    pub fn as_glsl(&self, shader: &mut String)
        ensures
            final(shader)@ == old(shader)@ + glsl_name(*self),
    {
        match self {
            AttributeType::Scalar => shader.append("float"),
            AttributeType::Vector(Dimension::D2) => shader.append("vec2"),
            AttributeType::Vector(Dimension::D3) => shader.append("vec3"),
            AttributeType::Vector(Dimension::D4) => shader.append("vec4"),
        }
    }
}

impl UniformType {
    /// Appends the dialect's name of the type to `shader`.
    pub fn as_glsl(&self, shader: &mut String)
        ensures
            final(shader)@ == old(shader)@ + uniform_glsl_name(*self),
    {
        match self {
            UniformType::Int => shader.append("int"),
            UniformType::IVector2 => shader.append("ivec2"),
            UniformType::IVector3 => shader.append("ivec3"),
            UniformType::IVector4 => shader.append("ivec4"),
            UniformType::Float => shader.append("float"),
            UniformType::Vector2 => shader.append("vec2"),
            UniformType::Vector3 => shader.append("vec3"),
            UniformType::Vector4 => shader.append("vec4"),
            UniformType::Sampler2D => shader.append("sampler2D"),
        }
    }
}

impl Attribute {
    /// An attribute with the given name and type.
    pub fn new(name: &str, value: AttributeType) -> (attribute: Attribute)
        ensures
            attribute@ == (AttributeView { name: name@, value }),
    {
        Attribute { name: String::from_str(name), value }
    }

    /// The attribute's name.
    pub fn name(&self) -> (name: &str)
        ensures
            name@ == self@.name,
    {
        self.name.as_str()
    }

    /// The number of float components the attribute occupies in a vertex record.
    pub fn size(&self) -> (n: i32)
        ensures
            n == components(self@.value),
    {
        self.value.size()
    }

    /// A copy of the attribute.
    pub fn duplicate(&self) -> (copy: Attribute)
        ensures
            copy@ == self@,
    {
        Attribute { name: self.name.clone(), value: self.value }
    }

    /// Appends the attribute's declaration line to `shader`.
    pub fn as_glsl(
        &self,
        target: Target,
        stage: ShaderStage,
        position: Position,
        shader: &mut String,
    )
        ensures
            final(shader)@ == old(shader)@ + attribute_line(target, stage, position, self@),
    {
        match target {
            Target::Desktop => match position {
                Position::Input => shader.append("in "),
                Position::Output => shader.append("out "),
            },
            Target::Web => match (stage, position) {
                (ShaderStage::Vertex, Position::Input) => shader.append("attribute "),
                _ => shader.append("varying "),
            },
        }
        self.value.as_glsl(shader);
        shader.append(" ");
        shader.append(self.name.as_str());
        shader.append(";\n");
        assert(shader@ =~= old(shader)@ + attribute_line(target, stage, position, self@));
    }
}

impl Uniform {
    /// A uniform with the given name and declared type.
    pub fn new(name: &str, u_type: UniformType) -> (uniform: Uniform)
        ensures
            uniform@ == (UniformView { name: name@, u_type }),
    {
        Uniform { name: String::from_str(name), u_type }
    }

    /// The uniform's name.
    pub fn name(&self) -> (name: &str)
        ensures
            name@ == self@.name,
    {
        self.name.as_str()
    }

    /// A copy of the uniform.
    pub fn duplicate(&self) -> (copy: Uniform)
        ensures
            copy@ == self@,
    {
        Uniform { name: self.name.clone(), u_type: self.u_type }
    }

    /// Appends the uniform's declaration line to `shader`.
    pub fn as_glsl(&self, shader: &mut String)
        ensures
            final(shader)@ == old(shader)@ + uniform_line(self@),
    {
        shader.append("uniform ");
        self.u_type.as_glsl(shader);
        shader.append(" ");
        shader.append(self.name.as_str());
        shader.append(";\n");
        assert(shader@ =~= old(shader)@ + uniform_line(self@));
    }
}

/// What a shader program is made from: the attributes that enter the vertex
/// stage, the attributes that pass from the vertex stage into the fragment
/// stage, the uniforms that both stages see, and the body of each stage. A
/// body holds neither a version or precision line nor the declarations of
/// these variables, and writes its colour to `gl_FragColor`.
#[derive(Clone, Debug, PartialEq, Eq)]
pub struct ShaderDescription {
    pub vertex_input: Vec<Attribute>,
    pub fragment_input: Vec<Attribute>,
    pub uniforms: Vec<Uniform>,
    pub vertex_shader: String,
    pub fragment_shader: String,
}

/// What a [`ShaderDescription`] stands for.
pub struct ShaderDescriptionView {
    pub vertex_input: Seq<AttributeView>,
    pub fragment_input: Seq<AttributeView>,
    pub uniforms: Seq<UniformView>,
    pub vertex_shader: Seq<char>,
    pub fragment_shader: Seq<char>,
}

impl View for ShaderDescription {
    type V = ShaderDescriptionView;

    open spec fn view(&self) -> ShaderDescriptionView {
        ShaderDescriptionView {
            vertex_input: attribute_views(self.vertex_input@),
            fragment_input: attribute_views(self.fragment_input@),
            uniforms: uniform_views(self.uniforms@),
            vertex_shader: self.vertex_shader@,
            fragment_shader: self.fragment_shader@,
        }
    }
}

/// The number of bytes of one float component.
pub const FLOAT_BYTES: i32 = 4;

/// The number of float components that the attributes take together.
pub open spec fn total_components(attributes: Seq<AttributeView>) -> int
    decreases attributes.len(),
{
    if attributes.len() == 0 {
        0
    } else {
        total_components(attributes.drop_last()) + components(attributes.last().value)
    }
}

/// The number of bytes of one vertex record in which the attributes are
/// packed one after the other.
pub open spec fn stride(attributes: Seq<AttributeView>) -> int {
    FLOAT_BYTES * total_components(attributes)
}

/// The byte offset of attribute `i` in such a record: the bytes of the
/// attributes before it.
pub open spec fn attribute_offset(attributes: Seq<AttributeView>, i: int) -> int {
    stride(attributes.take(i))
}

/// Whether a device can address the packed layout: an unsigned 32-bit number
/// holds every attribute index, and a signed one holds the stride.
pub open spec fn layout_fits(attributes: Seq<AttributeView>) -> bool {
    attributes.len() <= u32::MAX && stride(attributes) <= i32::MAX
}

/// The attributes take at least one and at most four components each.
pub proof fn lemma_total_components_bounds(attributes: Seq<AttributeView>)
    ensures
        attributes.len() <= total_components(attributes) <= 4 * attributes.len(),
    decreases attributes.len(),
{
    if attributes.len() > 0 {
        lemma_total_components_bounds(attributes.drop_last());
    }
}

/// A longer list of attributes takes at least the components of its start.
pub proof fn lemma_total_components_prefix(attributes: Seq<AttributeView>, i: int)
    requires
        0 <= i <= attributes.len(),
    ensures
        total_components(attributes.take(i)) <= total_components(attributes),
    decreases attributes.len(),
{
    if i == attributes.len() {
        assert(attributes.take(i) =~= attributes);
    } else {
        assert(attributes.drop_last().take(i) =~= attributes.take(i));
        lemma_total_components_prefix(attributes.drop_last(), i);
    }
}

/// In a packed vertex record the attributes lie one
/// after the other without overlap: each starts where the one before it
/// ends, so the offsets strictly increase with the index, and the last one
/// ends where the record ends.
pub proof fn lemma_layout_packed(attributes: Seq<AttributeView>, i: int)
    requires
        0 <= i < attributes.len(),
    ensures
        0 <= attribute_offset(attributes, i),
        attribute_offset(attributes, i) < attribute_offset(attributes, i + 1),
        attribute_offset(attributes, i + 1) == attribute_offset(attributes, i) + FLOAT_BYTES
            * components(attributes[i].value),
        attribute_offset(attributes, i + 1) <= stride(attributes),
        attribute_offset(attributes, 0) == 0,
        attribute_offset(attributes, attributes.len() as int) == stride(attributes),
{
    assert(attributes.take(i + 1).drop_last() =~= attributes.take(i));
    assert(attributes.take(i + 1).last() == attributes[i]);
    lemma_total_components_bounds(attributes.take(i));
    lemma_total_components_prefix(attributes, i + 1);
    assert(attributes.take(attributes.len() as int) =~= attributes);
    assert(attributes.take(0).len() == 0);
}

/// Of any two attributes, the one with the lower index
/// ends at or before the start of the other.
pub proof fn lemma_layout_ordered(attributes: Seq<AttributeView>, i: int, j: int)
    requires
        0 <= i < j < attributes.len(),
    ensures
        attribute_offset(attributes, i) + FLOAT_BYTES * components(attributes[i].value)
            <= attribute_offset(attributes, j),
    decreases j - i,
{
    lemma_layout_packed(attributes, i);
    if i + 1 < j {
        lemma_layout_ordered(attributes, i + 1, j);
        lemma_layout_packed(attributes, i + 1);
    }
}

/// The stride in bytes of the packed layout of `attributes`, or `None` where
/// a device cannot address that layout.
pub fn packed_stride(attributes: &[Attribute]) -> (result: Option<i32>)
    ensures
        result is Some <==> layout_fits(attribute_views(attributes@)),
        result matches Some(bytes) ==> bytes == stride(attribute_views(attributes@)),
{
    let ghost views = attribute_views(attributes@);
    let mut total: i32 = 0;
    let mut i: usize = 0;
    while i < attributes.len()
        invariant
            i <= attributes.len(),
            views == attribute_views(attributes@),
            total == stride(views.take(i as int)),
            0 <= total,
        decreases attributes.len() - i,
    {
        let size = attributes[i].size() * FLOAT_BYTES;
        proof {
            lemma_layout_packed(views, i as int);
        }
        if total > i32::MAX - size {
            return None;
        }
        total += size;
        i += 1;
    }
    proof {
        assert(views.take(i as int) =~= views);
        lemma_total_components_bounds(views);
    }
    Some(total)
}

/// A linked shader program: the identities of the program and of its two
/// stages, the vertex inputs in the order in which they were declared, which
/// is the order of their attribute indices and of their places in a vertex
/// record, and the uniforms that were declared for it.
#[derive(Debug, PartialEq, Eq)]
pub struct ShaderProgram {
    id: u32,
    vertex: u32,
    fragment: u32,
    input: Vec<Attribute>,
    uniforms: Vec<Uniform>,
}

/// What a [`ShaderProgram`] stands for.
pub struct ShaderProgramView {
    pub id: u32,
    pub vertex: u32,
    pub fragment: u32,
    pub input: Seq<AttributeView>,
    pub uniforms: Seq<UniformView>,
}

impl View for ShaderProgram {
    type V = ShaderProgramView;

    closed spec fn view(&self) -> ShaderProgramView {
        ShaderProgramView {
            id: self.id,
            vertex: self.vertex,
            fragment: self.fragment,
            input: attribute_views(self.input@),
            uniforms: uniform_views(self.uniforms@),
        }
    }
}

impl ShaderProgram {
    #[verifier::type_invariant]
    spec fn addressable(&self) -> bool {
        layout_fits(attribute_views(self.input@))
    }

    pub(crate) fn new(
        id: u32,
        vertex: u32,
        fragment: u32,
        input: Vec<Attribute>,
        uniforms: Vec<Uniform>,
    ) -> (program: ShaderProgram)
        requires
            layout_fits(attribute_views(input@)),
        ensures
            program@ == (ShaderProgramView {
                id,
                vertex,
                fragment,
                input: attribute_views(input@),
                uniforms: uniform_views(uniforms@),
            }),
    {
        ShaderProgram { id, vertex, fragment, input, uniforms }
    }

    /// The identity that the device gave the program.
    pub fn id(&self) -> (id: u32)
        ensures
            id == self@.id,
    {
        self.id
    }

    /// The identity of the vertex stage.
    pub fn vertex(&self) -> (id: u32)
        ensures
            id == self@.vertex,
    {
        self.vertex
    }

    /// The identity of the fragment stage.
    pub fn fragment(&self) -> (id: u32)
        ensures
            id == self@.fragment,
    {
        self.fragment
    }

    /// The vertex inputs, in declared order. A device can address their
    /// packed layout.
    pub fn input(&self) -> (input: &Vec<Attribute>)
        ensures
            attribute_views(input@) == self@.input,
            layout_fits(self@.input),
    {
        proof {
            use_type_invariant(self);
        }
        &self.input
    }

    /// The number of bytes of one vertex record.
    pub fn stride(&self) -> (bytes: i32)
        ensures
            bytes == stride(self@.input),
    {
        proof {
            use_type_invariant(self);
        }
        let ghost views = attribute_views(self.input@);
        let mut bytes: i32 = 0;
        let mut i: usize = 0;
        while i < self.input.len()
            invariant
                i <= self.input.len(),
                views == attribute_views(self.input@),
                layout_fits(views),
                bytes == stride(views.take(i as int)),
            decreases self.input.len() - i,
        {
            proof {
                lemma_layout_packed(views, i as int);
            }
            bytes += self.input[i].size() * FLOAT_BYTES;
            i += 1;
        }
        assert(views.take(i as int) =~= views);
        bytes
    }

    /// The uniforms that were declared for the program.
    pub fn uniforms(&self) -> (uniforms: &Vec<Uniform>)
        ensures
            uniform_views(uniforms@) == self@.uniforms,
    {
        &self.uniforms
    }
}

} // verus!
