use golem::buffer::{ElementBuffer, VertexBuffer};
use golem::context::Context;
use golem::device::{BufferTarget, Command};
use golem::linking::{Progress, Reply};
use golem::objects::{DrawList, UniformValue};
use golem::program::{
    Attribute, AttributeType, Dimension, ShaderDescription, ShaderProgram, Target, Uniform,
    UniformType,
};
use golem::GolemError;

fn context() -> Context {
    Context::from_glow(Target::Desktop, Some(1)).unwrap().0
}

fn program(inputs: Vec<Attribute>, uniforms: Vec<Uniform>) -> ShaderProgram {
    let description = ShaderDescription {
        vertex_input: inputs,
        fragment_input: vec![],
        uniforms,
        vertex_shader: String::new(),
        fragment_shader: String::new(),
    };
    let replies = [
        Reply::Created(Some(21)),
        Reply::Status { ok: true, log: String::new() },
        Reply::Created(Some(22)),
        Reply::Status { ok: true, log: String::new() },
        Reply::Created(Some(23)),
        Reply::Status { ok: true, log: String::new() },
    ];
    let mut progress = context().new_shader(description);
    for reply in replies {
        progress = match progress {
            Progress::Ask { state, .. } => state.step(reply),
            Progress::Done(_) => panic!("the build ended early"),
        };
    }
    match progress {
        Progress::Done(Ok(program)) => program,
        _ => panic!("the build did not succeed"),
    }
}

fn image_program() -> ShaderProgram {
    program(
        vec![
            Attribute::new("vert_position", AttributeType::Vector(Dimension::D2)),
            Attribute::new("vert_uv", AttributeType::Vector(Dimension::D2)),
        ],
        vec![Uniform::new("image", UniformType::Sampler2D)],
    )
}

fn buffers(ctx: &Context, vertex_bytes: usize, indices: usize) -> (VertexBuffer, ElementBuffer) {
    let mut vb = ctx.new_vertex_buffer(Some(31)).unwrap();
    let mut eb = ctx.new_element_buffer(Some(32)).unwrap();
    ctx.upload(vb.buffer_mut(), BufferTarget::Vertex, 0, &vec![0; vertex_bytes]).unwrap();
    ctx.send_data(eb.buffer_mut(), BufferTarget::Index, 0, &vec![0; indices]).unwrap();
    (vb, eb)
}

fn entry(start: usize, end: usize, uniforms: Vec<(&str, UniformValue)>) -> DrawList {
    DrawList {
        range: start..end,
        uniforms: uniforms.into_iter().map(|(n, v)| (String::from(n), v)).collect(),
    }
}

fn quad_prelude() -> Vec<Command> {
    vec![
        Command::UseProgram { program: 23 },
        Command::BindBuffer { target: BufferTarget::Vertex, buffer: 31 },
        Command::BindBuffer { target: BufferTarget::Index, buffer: 32 },
        Command::EnableVertexAttribArray { index: 0 },
        Command::VertexAttribPointer { index: 0, size: 2, stride: 16, offset: 0 },
        Command::EnableVertexAttribArray { index: 1 },
        Command::VertexAttribPointer { index: 1, size: 2, stride: 16, offset: 8 },
    ]
}

#[test]
fn quad_is_drawn_with_one_indexed_draw_of_six_indices() {
    let mut ctx = context();
    let shader = image_program();
    let mut vb = ctx.new_vertex_buffer(Some(31)).unwrap();
    let mut eb = ctx.new_element_buffer(Some(32)).unwrap();
    let vertices: [f32; 16] = [
        -0.5, -0.5, 0.0, 0.0, 0.5, -0.5, 1.0, 0.0, 0.5, 0.5, 1.0, 1.0, -0.5, 0.5, 0.0, 1.0,
    ];
    let bits: Vec<u32> = vertices.iter().map(|v| v.to_bits()).collect();
    let indices: [u32; 6] = [0, 1, 2, 2, 3, 0];
    ctx.send_data(vb.buffer_mut(), BufferTarget::Vertex, 0, &bits).unwrap();
    ctx.send_data(eb.buffer_mut(), BufferTarget::Index, 0, &indices).unwrap();
    let list = [entry(0, indices.len(), vec![("image", UniformValue::Int(0))])];
    let commands = ctx.draw(&shader, &vb, &eb, &list).unwrap();
    let mut expected = quad_prelude();
    expected.push(Command::Uniform1i { program: 23, name: String::from("image"), x: 0 });
    expected.push(Command::DrawElements { count: 6, offset: 0 });
    assert_eq!(commands, expected);
    let draws = commands.iter().filter(|c| matches!(c, Command::DrawElements { .. })).count();
    assert_eq!(draws, 1);
}

#[test]
fn two_vec2_inputs_have_stride_of_four_floats_and_second_offset_of_two() {
    let mut ctx = context();
    let shader = image_program();
    assert_eq!(shader.stride(), 4 * 4);
    let (vb, eb) = buffers(&ctx, 64, 6);
    let commands = ctx.draw(&shader, &vb, &eb, &[]).unwrap();
    assert_eq!(commands, quad_prelude());
}

#[test]
fn offsets_increase_and_do_not_overlap() {
    let mut ctx = context();
    let shader = program(
        vec![
            Attribute::new("a", AttributeType::Scalar),
            Attribute::new("b", AttributeType::Vector(Dimension::D3)),
            Attribute::new("c", AttributeType::Vector(Dimension::D4)),
            Attribute::new("d", AttributeType::Vector(Dimension::D2)),
        ],
        vec![],
    );
    let (vb, eb) = buffers(&ctx, 40, 3);
    let commands = ctx.draw(&shader, &vb, &eb, &[]).unwrap();
    assert_eq!(
        commands[3..],
        [
            Command::EnableVertexAttribArray { index: 0 },
            Command::VertexAttribPointer { index: 0, size: 1, stride: 40, offset: 0 },
            Command::EnableVertexAttribArray { index: 1 },
            Command::VertexAttribPointer { index: 1, size: 3, stride: 40, offset: 4 },
            Command::EnableVertexAttribArray { index: 2 },
            Command::VertexAttribPointer { index: 2, size: 4, stride: 40, offset: 16 },
            Command::EnableVertexAttribArray { index: 3 },
            Command::VertexAttribPointer { index: 3, size: 2, stride: 40, offset: 32 },
        ]
    );
    let mut end = 0;
    for command in &commands {
        if let Command::VertexAttribPointer { size, stride, offset, .. } = command {
            assert!(*offset >= end);
            end = offset + 4 * size;
            assert!(end <= *stride);
        }
    }
    assert_eq!(end, 40);
}

#[test]
fn each_entry_gets_its_uniforms_then_its_own_draw() {
    let mut ctx = context();
    let shader = program(
        vec![Attribute::new("p", AttributeType::Vector(Dimension::D3))],
        vec![
            Uniform::new("tint", UniformType::Vector4),
            Uniform::new("layer", UniformType::Int),
        ],
    );
    let (vb, eb) = buffers(&ctx, 36, 12);
    let red = [1.0f32.to_bits(), 0, 0, 1.0f32.to_bits()];
    let blue = [0, 0, 1.0f32.to_bits(), 1.0f32.to_bits()];
    let list = [
        entry(0, 3, vec![("tint", UniformValue::Vector4(red)), ("layer", UniformValue::Int(1))]),
        entry(3, 9, vec![("layer", UniformValue::Int(2)), ("tint", UniformValue::Vector4(blue))]),
        entry(9, 12, vec![]),
    ];
    let commands = ctx.draw(&shader, &vb, &eb, &list).unwrap();
    let one = 1.0f32.to_bits();
    assert_eq!(
        commands,
        vec![
            Command::UseProgram { program: 23 },
            Command::BindBuffer { target: BufferTarget::Vertex, buffer: 31 },
            Command::BindBuffer { target: BufferTarget::Index, buffer: 32 },
            Command::EnableVertexAttribArray { index: 0 },
            Command::VertexAttribPointer { index: 0, size: 3, stride: 12, offset: 0 },
            Command::Uniform4f {
                program: 23,
                name: String::from("tint"),
                x: one,
                y: 0,
                z: 0,
                w: one,
            },
            Command::Uniform1i { program: 23, name: String::from("layer"), x: 1 },
            Command::DrawElements { count: 3, offset: 0 },
            Command::Uniform1i { program: 23, name: String::from("layer"), x: 2 },
            Command::Uniform4f {
                program: 23,
                name: String::from("tint"),
                x: 0,
                y: 0,
                z: one,
                w: one,
            },
            Command::DrawElements { count: 6, offset: 12 },
            Command::DrawElements { count: 3, offset: 36 },
        ]
    );
}

#[test]
fn k_entries_issue_k_draws() {
    let mut ctx = context();
    let shader = image_program();
    let (vb, eb) = buffers(&ctx, 64, 30);
    for k in 0..10usize {
        let list: Vec<DrawList> = (0..k).map(|i| entry(3 * i, 3 * i + 3, vec![])).collect();
        let commands = ctx.draw(&shader, &vb, &eb, &list).unwrap();
        let draws: Vec<&Command> =
            commands.iter().filter(|c| matches!(c, Command::DrawElements { .. })).collect();
        assert_eq!(draws.len(), k);
        for (i, draw) in draws.iter().enumerate() {
            assert_eq!(**draw, Command::DrawElements { count: 3, offset: (12 * i) as i32 });
        }
        assert_eq!(commands.len(), 7 + k);
    }
}

#[test]
fn every_value_shape_has_its_own_command() {
    let ctx = context();
    let shader = program(vec![], vec![]);
    let name = String::from("u");
    let n = || String::from("u");
    let cases = vec![
        (UniformValue::Int(-1), Command::Uniform1i { program: 23, name: n(), x: -1 }),
        (UniformValue::IVector2([1, 2]), Command::Uniform2i { program: 23, name: n(), x: 1, y: 2 }),
        (
            UniformValue::IVector3([1, 2, 3]),
            Command::Uniform3i { program: 23, name: n(), x: 1, y: 2, z: 3 },
        ),
        (
            UniformValue::IVector4([1, 2, 3, 4]),
            Command::Uniform4i { program: 23, name: n(), x: 1, y: 2, z: 3, w: 4 },
        ),
        (UniformValue::Float(5), Command::Uniform1f { program: 23, name: n(), x: 5 }),
        (UniformValue::Vector2([5, 6]), Command::Uniform2f { program: 23, name: n(), x: 5, y: 6 }),
        (
            UniformValue::Vector3([5, 6, 7]),
            Command::Uniform3f { program: 23, name: n(), x: 5, y: 6, z: 7 },
        ),
        (
            UniformValue::Vector4([5, 6, 7, 8]),
            Command::Uniform4f { program: 23, name: n(), x: 5, y: 6, z: 7, w: 8 },
        ),
    ];
    for (value, command) in cases {
        assert_eq!(ctx.bind_uniform(&shader, &name, value), Ok(command));
    }
}

#[test]
fn float_against_ivec2_is_a_type_mismatch() {
    let ctx = context();
    let shader = program(vec![], vec![Uniform::new("cell", UniformType::IVector2)]);
    let result =
        ctx.bind_uniform(&shader, &String::from("cell"), UniformValue::Float(1.5f32.to_bits()));
    assert_eq!(
        result,
        Err(GolemError::UniformTypeMismatch {
            name: String::from("cell"),
            expected: UniformType::IVector2,
            got: UniformType::Float,
        })
    );
}

#[test]
fn mismatch_in_a_draw_sends_nothing() {
    let mut ctx = context();
    let shader = program(
        vec![Attribute::new("p", AttributeType::Scalar)],
        vec![Uniform::new("cell", UniformType::IVector2)],
    );
    let (vb, eb) = buffers(&ctx, 16, 6);
    let list = [
        entry(0, 3, vec![("cell", UniformValue::IVector2([1, 2]))]),
        entry(3, 6, vec![("cell", UniformValue::Float(0))]),
    ];
    assert_eq!(
        ctx.draw(&shader, &vb, &eb, &list),
        Err(GolemError::UniformTypeMismatch {
            name: String::from("cell"),
            expected: UniformType::IVector2,
            got: UniformType::Float,
        })
    );
}

#[test]
fn declared_types_accept_their_values_only() {
    let types = [
        UniformType::Int,
        UniformType::IVector2,
        UniformType::IVector3,
        UniformType::IVector4,
        UniformType::Float,
        UniformType::Vector2,
        UniformType::Vector3,
        UniformType::Vector4,
        UniformType::Sampler2D,
    ];
    let values = [
        UniformValue::Int(0),
        UniformValue::IVector2([0; 2]),
        UniformValue::IVector3([0; 3]),
        UniformValue::IVector4([0; 4]),
        UniformValue::Float(0),
        UniformValue::Vector2([0; 2]),
        UniformValue::Vector3([0; 3]),
        UniformValue::Vector4([0; 4]),
    ];
    let ctx = context();
    for (t, declared) in types.iter().enumerate() {
        let shader = program(vec![], vec![Uniform::new("u", *declared)]);
        for (v, value) in values.iter().enumerate() {
            let accepted = t == v || (*declared == UniformType::Sampler2D && v == 0);
            assert_eq!(value.fits(*declared), accepted);
            assert_eq!(value.uniform_type(), types[v]);
            assert_eq!(ctx.bind_uniform(&shader, &String::from("u"), *value).is_ok(), accepted);
        }
    }
}

#[test]
fn sampler_takes_a_texture_unit() {
    let ctx = context();
    let shader = image_program();
    assert_eq!(
        ctx.bind_uniform(&shader, &String::from("image"), UniformValue::Int(3)),
        Ok(Command::Uniform1i { program: 23, name: String::from("image"), x: 3 })
    );
}

#[test]
fn undeclared_name_is_left_to_the_device() {
    let ctx = context();
    let shader = image_program();
    assert_eq!(
        ctx.bind_uniform(&shader, &String::from("time"), UniformValue::Float(7)),
        Ok(Command::Uniform1f { program: 23, name: String::from("time"), x: 7 })
    );
}

#[test]
fn first_declaration_of_a_name_decides() {
    let ctx = context();
    let shader = program(
        vec![],
        vec![Uniform::new("u", UniformType::Float), Uniform::new("u", UniformType::Int)],
    );
    assert!(ctx.bind_uniform(&shader, &String::from("u"), UniformValue::Float(0)).is_ok());
    assert_eq!(
        ctx.bind_uniform(&shader, &String::from("u"), UniformValue::Int(0)),
        Err(GolemError::UniformTypeMismatch {
            name: String::from("u"),
            expected: UniformType::Float,
            got: UniformType::Int,
        })
    );
}

#[test]
fn range_past_the_index_buffer_is_a_bounds_violation() {
    let mut ctx = context();
    let shader = image_program();
    let (vb, eb) = buffers(&ctx, 64, 6);
    assert_eq!(eb.buffer().capacity(), 48);
    assert!(ctx.draw(&shader, &vb, &eb, &[entry(0, 12, vec![])]).is_ok());
    assert_eq!(
        ctx.draw(&shader, &vb, &eb, &[entry(0, 13, vec![])]),
        Err(GolemError::BufferBoundsViolation)
    );
    assert_eq!(
        ctx.draw(&shader, &vb, &eb, &[entry(0, 6, vec![]), entry(7, 6, vec![])]),
        Err(GolemError::BufferBoundsViolation)
    );
    assert_eq!(
        ctx.draw(&shader, &vb, &eb, &[entry(0, usize::MAX, vec![])]),
        Err(GolemError::BufferBoundsViolation)
    );
}

#[test]
fn empty_range_draws_no_indices() {
    let mut ctx = context();
    let shader = image_program();
    let (vb, eb) = buffers(&ctx, 64, 6);
    let commands = ctx.draw(&shader, &vb, &eb, &[entry(4, 4, vec![])]).unwrap();
    assert_eq!(commands.last(), Some(&Command::DrawElements { count: 0, offset: 16 }));
}

#[test]
fn first_error_in_order_is_reported() {
    let mut ctx = context();
    let shader = program(vec![], vec![Uniform::new("u", UniformType::Int)]);
    let (vb, eb) = buffers(&ctx, 4, 3);
    let list = [
        entry(0, 9, vec![("u", UniformValue::Float(0))]),
        entry(0, 3, vec![]),
    ];
    assert!(matches!(
        ctx.draw(&shader, &vb, &eb, &list),
        Err(GolemError::UniformTypeMismatch { .. })
    ));
    let list = [entry(0, 9, vec![]), entry(0, 3, vec![("u", UniformValue::Float(0))])];
    assert_eq!(ctx.draw(&shader, &vb, &eb, &list), Err(GolemError::BufferBoundsViolation));
}
