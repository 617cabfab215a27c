use golem::context::generate_shader_text;
use golem::program::{
    packed_stride, Attribute, AttributeType, Dimension, Position, ShaderStage, Target, Uniform,
    UniformType,
};
use golem::text::{chars_of, substitute};

fn quad_inputs() -> Vec<Attribute> {
    vec![
        Attribute::new("vert_position", AttributeType::Vector(Dimension::D2)),
        Attribute::new("vert_uv", AttributeType::Vector(Dimension::D2)),
    ]
}

#[test]
fn desktop_vertex_text_is_exact() {
    let outputs = vec![Attribute::new("frag_uv", AttributeType::Vector(Dimension::D2))];
    let uniforms = vec![Uniform::new("image", UniformType::Sampler2D)];
    let text = generate_shader_text(
        Target::Desktop,
        ShaderStage::Vertex,
        "void main() {}",
        &quad_inputs(),
        &outputs,
        &uniforms,
    );
    assert_eq!(
        text,
        "#version 150\nprecision mediump float;\nin vec2 vert_position;\nin vec2 vert_uv;\n\
         out vec2 frag_uv;\nuniform sampler2D image;\nvoid main() {}"
    );
}

#[test]
fn web_vertex_text_is_exact() {
    let outputs = vec![Attribute::new("frag_uv", AttributeType::Vector(Dimension::D2))];
    let uniforms = vec![Uniform::new("image", UniformType::Sampler2D)];
    let text = generate_shader_text(
        Target::Web,
        ShaderStage::Vertex,
        "void main() {}",
        &quad_inputs(),
        &outputs,
        &uniforms,
    );
    assert_eq!(
        text,
        "precision mediump float;\nattribute vec2 vert_position;\nattribute vec2 vert_uv;\n\
         varying vec2 frag_uv;\nuniform sampler2D image;\nvoid main() {}"
    );
}

#[test]
fn web_fragment_inputs_are_varyings() {
    let inputs = vec![Attribute::new("frag_uv", AttributeType::Vector(Dimension::D2))];
    let text = generate_shader_text(Target::Web, ShaderStage::Fragment, "B", &inputs, &[], &[]);
    assert_eq!(text, "precision mediump float;\nvarying vec2 frag_uv;\nB");
}

#[test]
fn empty_lists_leave_preamble_and_body() {
    let text = generate_shader_text(Target::Desktop, ShaderStage::Fragment, "body", &[], &[], &[]);
    assert_eq!(text, "#version 150\nprecision mediump float;\nbody");
    let text = generate_shader_text(Target::Web, ShaderStage::Vertex, "", &[], &[], &[]);
    assert_eq!(text, "precision mediump float;\n");
}

#[test]
fn synthesis_is_deterministic() {
    let uniforms = vec![Uniform::new("tint", UniformType::Vector4)];
    let first = generate_shader_text(
        Target::Desktop,
        ShaderStage::Vertex,
        "void main() {}",
        &quad_inputs(),
        &[],
        &uniforms,
    );
    let second = generate_shader_text(
        Target::Desktop,
        ShaderStage::Vertex,
        "void main() {}",
        &quad_inputs(),
        &[],
        &uniforms,
    );
    assert_eq!(first.as_bytes(), second.as_bytes());
}

#[test]
fn one_declaration_line_per_variable() {
    let inputs = quad_inputs();
    let outputs = vec![
        Attribute::new("a", AttributeType::Scalar),
        Attribute::new("b", AttributeType::Vector(Dimension::D3)),
        Attribute::new("c", AttributeType::Vector(Dimension::D4)),
    ];
    let uniforms = vec![
        Uniform::new("u", UniformType::Int),
        Uniform::new("v", UniformType::Float),
    ];
    let body = "void main() {}";
    let text = generate_shader_text(
        Target::Desktop,
        ShaderStage::Vertex,
        body,
        &inputs,
        &outputs,
        &uniforms,
    );
    let preamble = "#version 150\nprecision mediump float;\n";
    assert!(text.starts_with(preamble));
    assert!(text.ends_with(body));
    let declarations = &text[preamble.len()..text.len() - body.len()];
    assert_eq!(declarations.lines().count(), 2 + 3 + 2);
    assert!(declarations.lines().all(|line| line.ends_with(';')));
    assert!(declarations.ends_with('\n'));
}

#[test]
fn every_attribute_type_has_its_name_and_size() {
    let cases = [
        (AttributeType::Scalar, "float", 1),
        (AttributeType::Vector(Dimension::D2), "vec2", 2),
        (AttributeType::Vector(Dimension::D3), "vec3", 3),
        (AttributeType::Vector(Dimension::D4), "vec4", 4),
    ];
    for (value, name, size) in cases {
        let attribute = Attribute::new("x", value);
        assert_eq!(attribute.size(), size);
        assert_eq!(value.size(), size);
        assert_eq!(attribute.name(), "x");
        let mut line = String::new();
        attribute.as_glsl(Target::Desktop, ShaderStage::Vertex, Position::Output, &mut line);
        assert_eq!(line, format!("out {} x;\n", name));
        let mut text = String::from("> ");
        value.as_glsl(&mut text);
        assert_eq!(text, format!("> {}", name));
    }
}

#[test]
fn every_uniform_type_has_its_name() {
    let cases = [
        (UniformType::Int, "int"),
        (UniformType::IVector2, "ivec2"),
        (UniformType::IVector3, "ivec3"),
        (UniformType::IVector4, "ivec4"),
        (UniformType::Float, "float"),
        (UniformType::Vector2, "vec2"),
        (UniformType::Vector3, "vec3"),
        (UniformType::Vector4, "vec4"),
        (UniformType::Sampler2D, "sampler2D"),
    ];
    for (u_type, name) in cases {
        let uniform = Uniform::new("u", u_type);
        assert_eq!(uniform.name(), "u");
        let mut line = String::new();
        uniform.as_glsl(&mut line);
        assert_eq!(line, format!("uniform {} u;\n", name));
    }
}

#[test]
fn qualifiers_follow_target_stage_and_direction() {
    let attribute = Attribute::new("p", AttributeType::Scalar);
    let cases = [
        (Target::Desktop, ShaderStage::Vertex, Position::Input, "in float p;\n"),
        (Target::Desktop, ShaderStage::Vertex, Position::Output, "out float p;\n"),
        (Target::Desktop, ShaderStage::Fragment, Position::Input, "in float p;\n"),
        (Target::Desktop, ShaderStage::Fragment, Position::Output, "out float p;\n"),
        (Target::Web, ShaderStage::Vertex, Position::Input, "attribute float p;\n"),
        (Target::Web, ShaderStage::Vertex, Position::Output, "varying float p;\n"),
        (Target::Web, ShaderStage::Fragment, Position::Input, "varying float p;\n"),
        (Target::Web, ShaderStage::Fragment, Position::Output, "varying float p;\n"),
    ];
    for (target, stage, position, expected) in cases {
        let mut line = String::new();
        attribute.as_glsl(target, stage, position, &mut line);
        assert_eq!(line, expected);
    }
}

#[test]
fn duplicates_are_equal() {
    let attribute = Attribute::new("p", AttributeType::Vector(Dimension::D3));
    assert_eq!(attribute.duplicate(), attribute);
    let uniform = Uniform::new("u", UniformType::IVector2);
    assert_eq!(uniform.duplicate(), uniform);
}

#[test]
fn substitute_replaces_every_occurrence() {
    assert_eq!(
        substitute("gl_FragColor = a; gl_FragColor.a = 1.0;", "gl_FragColor", "outputColor"),
        "outputColor = a; outputColor.a = 1.0;"
    );
    assert_eq!(substitute("no match here", "gl_FragColor", "outputColor"), "no match here");
    assert_eq!(substitute("", "a", "b"), "");
    assert_eq!(substitute("abc", "abc", ""), "");
    assert_eq!(substitute("xgl_FragColo", "gl_FragColor", "o"), "xgl_FragColo");
}

#[test]
fn substitute_scans_from_the_left_without_overlap() {
    assert_eq!(substitute("aaa", "aa", "b"), "ba");
    assert_eq!(substitute("aaaa", "aa", "b"), "bb");
    assert_eq!(substitute("abab", "ab", "aab"), "aabaab");
    assert_eq!(substitute("héllo wörld", "ö", "oe"), "héllo woerld");
}

#[test]
fn substitute_with_empty_pattern_changes_nothing() {
    assert_eq!(substitute("abc", "", "x"), "abc");
}

#[test]
fn substitute_agrees_with_std_on_non_empty_patterns() {
    let cases = [
        ("gl_FragColor", "gl_FragColor", "outputColor"),
        ("a gl_FragColor b gl_FragColorgl_FragColor", "gl_FragColor", "outputColor"),
        ("ababab", "aba", "X"),
        ("mississippi", "ss", "SS"),
        ("mississippi", "i", ""),
    ];
    for (text, from, to) in cases {
        assert_eq!(substitute(text, from, to), text.replace(from, to));
    }
}

#[test]
fn chars_of_lists_the_characters() {
    assert_eq!(chars_of("aé\n"), vec!['a', 'é', '\n']);
    assert_eq!(chars_of(""), Vec::<char>::new());
}

#[test]
fn two_vec2_attributes_pack_into_four_floats() {
    assert_eq!(packed_stride(&quad_inputs()), Some(16));
    assert_eq!(packed_stride(&[]), Some(0));
    let mixed = vec![
        Attribute::new("a", AttributeType::Scalar),
        Attribute::new("b", AttributeType::Vector(Dimension::D3)),
        Attribute::new("c", AttributeType::Vector(Dimension::D4)),
    ];
    assert_eq!(packed_stride(&mixed), Some(32));
}
