//! Drawing: one bind of a program and a buffer pair, then one indexed draw
//! for each entry of a draw list, with only the uniforms set in between.

use crate::buffer::{BufferView, ElementBuffer, VertexBuffer};
use crate::context::Context;
use crate::device::{command_views, plan_view, BufferTarget, Command, CommandView};
use crate::error::{outcome_view, GolemError, GolemErrorView};
use crate::objects::{accepts, draw_list_views, value_type, DrawList, DrawListView, UniformValue};
use crate::program::{
    attribute_offset, attribute_views, components, layout_fits, lemma_layout_packed, stride,
    uniform_views, AttributeView, ShaderProgram, ShaderProgramView, Uniform, UniformType,
    UniformView, FLOAT_BYTES,
};
use vstd::prelude::*;

verus! {

broadcast use Seq::lemma_flatten_push;

/// The number of bytes of one index.
pub const INDEX_BYTES: usize = 4;

/// The type with which the first uniform named `name` was declared, if there is one.
pub open spec fn declared_type(uniforms: Seq<UniformView>, name: Seq<char>) -> Option<
    UniformType,
>
    decreases uniforms.len(),
{
    if uniforms.len() == 0 {
        None
    } else if uniforms[0].name == name {
        Some(uniforms[0].u_type)
    } else {
        declared_type(uniforms.skip(1), name)
    }
}

/// The one command that sets the uniform `name` of `program` to `value`: the
/// command for as many components, integers or floats, as the value has.
pub open spec fn set_uniform(program: u32, name: Seq<char>, value: UniformValue) -> CommandView {
    match value {
        UniformValue::Int(x) => CommandView::Uniform1i { program, name, x },
        UniformValue::IVector2(v) => CommandView::Uniform2i { program, name, x: v[0], y: v[1] },
        UniformValue::IVector3(v) => CommandView::Uniform3i {
            program,
            name,
            x: v[0],
            y: v[1],
            z: v[2],
        },
        UniformValue::IVector4(v) => CommandView::Uniform4i {
            program,
            name,
            x: v[0],
            y: v[1],
            z: v[2],
            w: v[3],
        },
        UniformValue::Float(x) => CommandView::Uniform1f { program, name, x },
        UniformValue::Vector2(v) => CommandView::Uniform2f { program, name, x: v[0], y: v[1] },
        UniformValue::Vector3(v) => CommandView::Uniform3f {
            program,
            name,
            x: v[0],
            y: v[1],
            z: v[2],
        },
        UniformValue::Vector4(v) => CommandView::Uniform4f {
            program,
            name,
            x: v[0],
            y: v[1],
            z: v[2],
            w: v[3],
        },
    }
}

/// Whether the program takes `value` for the uniform `name`: it does unless
/// the uniform was declared with a type that does not accept the value. A
/// name that was not declared with the program is left to the device.
pub open spec fn binds(shader: ShaderProgramView, name: Seq<char>, value: UniformValue) -> bool {
    declared_type(shader.uniforms, name) matches Some(declared) ==> accepts(declared, value)
}

/// What binding `value` to the uniform `name` comes to: the command that
/// sets it, or the mismatch between the declared type and the value's.
pub open spec fn uniform_binding(
    shader: ShaderProgramView,
    name: Seq<char>,
    value: UniformValue,
) -> Result<CommandView, GolemErrorView> {
    if binds(shader, name, value) {
        Ok(set_uniform(shader.id, name, value))
    } else {
        Err(
            GolemErrorView::UniformTypeMismatch {
                name,
                expected: declared_type(shader.uniforms, name).unwrap(),
                got: value_type(value),
            },
        )
    }
}

/// The commands that set the uniforms of an entry, in their order, or the
/// first mismatch among them.
pub open spec fn uniform_bindings(
    shader: ShaderProgramView,
    uniforms: Seq<(Seq<char>, UniformValue)>,
) -> Result<Seq<CommandView>, GolemErrorView>
    decreases uniforms.len(),
{
    if uniforms.len() == 0 {
        Ok(Seq::empty())
    } else {
        match uniform_bindings(shader, uniforms.drop_last()) {
            Ok(commands) => match uniform_binding(shader, uniforms.last().0, uniforms.last().1) {
                Ok(command) => Ok(commands.push(command)),
                Err(error) => Err(error),
            },
            Err(error) => Err(error),
        }
    }
}

/// Whether the indices from `start` up to `end` lie in an index buffer of
/// `capacity` bytes.
pub open spec fn range_fits(capacity: nat, start: nat, end: nat) -> bool {
    start <= end && INDEX_BYTES * end <= capacity
}

/// The indexed draw of an entry: as many indices as its range holds, from
/// the byte at which its first index lies.
pub open spec fn draw_call(entry: DrawListView) -> CommandView {
    CommandView::DrawElements {
        count: (entry.end - entry.start) as i32,
        offset: (INDEX_BYTES * entry.start) as i32,
    }
}

/// The commands of one entry: its uniforms, then its draw. A mismatch among
/// the uniforms comes before a range that does not fit, which is
/// `BufferBoundsViolation`.
pub open spec fn entry_commands(
    shader: ShaderProgramView,
    capacity: nat,
    entry: DrawListView,
) -> Result<Seq<CommandView>, GolemErrorView> {
    match uniform_bindings(shader, entry.uniforms) {
        Ok(commands) => if range_fits(capacity, entry.start, entry.end) {
            Ok(commands.push(draw_call(entry)))
        } else {
            Err(GolemErrorView::BufferBoundsViolation)
        },
        Err(error) => Err(error),
    }
}

/// The commands of the entries, one after the other, or the error of the
/// first entry that has one.
pub open spec fn entries_commands(
    shader: ShaderProgramView,
    capacity: nat,
    entries: Seq<DrawListView>,
) -> Result<Seq<CommandView>, GolemErrorView>
    decreases entries.len(),
{
    if entries.len() == 0 {
        Ok(Seq::empty())
    } else {
        match entries_commands(shader, capacity, entries.drop_last()) {
            Ok(commands) => match entry_commands(shader, capacity, entries.last()) {
                Ok(more) => Ok(commands + more),
                Err(error) => Err(error),
            },
            Err(error) => Err(error),
        }
    }
}

/// The two commands that set up the vertex attribute `i`: enable its array,
/// and say where in a vertex record its floats lie.
pub open spec fn attribute_commands(input: Seq<AttributeView>, i: int) -> Seq<CommandView> {
    seq![
        CommandView::EnableVertexAttribArray { index: i as u32 },
        CommandView::VertexAttribPointer {
            index: i as u32,
            size: components(input[i].value) as i32,
            stride: stride(input) as i32,
            offset: attribute_offset(input, i) as i32,
        },
    ]
}

/// The commands that set up all vertex attributes, in the order of their indices.
pub open spec fn layout_commands(input: Seq<AttributeView>) -> Seq<CommandView> {
    Seq::new(input.len(), |i: int| attribute_commands(input, i)).flatten()
}

/// The commands that bind the program and the two buffers.
pub open spec fn bind_commands(program: u32, vertices: u32, indices: u32) -> Seq<CommandView> {
    seq![
        CommandView::UseProgram { program },
        CommandView::BindBuffer { target: BufferTarget::Vertex, buffer: vertices },
        CommandView::BindBuffer { target: BufferTarget::Index, buffer: indices },
    ]
}

/// The commands of a draw: bind the program and the buffers, set up the
/// attributes, then for each entry in order set its uniforms and draw its
/// range. Where an entry has an error the draw is that error, and nothing
/// is to be sent to the device.
pub open spec fn draw_commands(
    shader: ShaderProgramView,
    vertices: BufferView,
    indices: BufferView,
    entries: Seq<DrawListView>,
) -> Result<Seq<CommandView>, GolemErrorView> {
    match entries_commands(shader, indices.capacity, entries) {
        Ok(commands) => Ok(
            bind_commands(shader.id, vertices.id, indices.id) + layout_commands(shader.input)
                + commands,
        ),
        Err(error) => Err(error),
    }
}

/// The type with which the first uniform named `name` was declared.
fn declared(uniforms: &Vec<Uniform>, name: &String) -> (found: Option<UniformType>)
    ensures
        found == declared_type(uniform_views(uniforms@), name@),
{
    let ghost views = uniform_views(uniforms@);
    let mut i: usize = 0;
    assert(views.skip(0) =~= views);
    while i < uniforms.len()
        invariant
            i <= uniforms.len(),
            views == uniform_views(uniforms@),
            declared_type(views.skip(i as int), name@) == declared_type(views, name@),
        decreases uniforms.len() - i,
    {
        if uniforms[i].name == *name {
            return Some(uniforms[i].u_type);
        }
        assert(views.skip(i as int).skip(1) =~= views.skip(i + 1));
        i += 1;
    }
    None
}

/// The command that sets the uniform `name` of `program` to `value`.
fn uniform_command(program: u32, name: &String, value: UniformValue) -> (command: Command)
    ensures
        command@ == set_uniform(program, name@, value),
{
    let name = name.clone();
    match value {
        UniformValue::Int(x) => Command::Uniform1i { program, name, x },
        UniformValue::IVector2(v) => Command::Uniform2i { program, name, x: v[0], y: v[1] },
        UniformValue::IVector3(v) => Command::Uniform3i {
            program,
            name,
            x: v[0],
            y: v[1],
            z: v[2],
        },
        UniformValue::IVector4(v) => Command::Uniform4i {
            program,
            name,
            x: v[0],
            y: v[1],
            z: v[2],
            w: v[3],
        },
        UniformValue::Float(x) => Command::Uniform1f { program, name, x },
        UniformValue::Vector2(v) => Command::Uniform2f { program, name, x: v[0], y: v[1] },
        UniformValue::Vector3(v) => Command::Uniform3f {
            program,
            name,
            x: v[0],
            y: v[1],
            z: v[2],
        },
        UniformValue::Vector4(v) => Command::Uniform4f {
            program,
            name,
            x: v[0],
            y: v[1],
            z: v[2],
            w: v[3],
        },
    }
}

impl Context {
    /// Binds `uniform` to the uniform `name` of `shader`. A value that the
    /// declared type of the uniform does not accept is turned down, and no
    /// command for the device comes of it.
    pub fn bind_uniform(
        &self,
        shader: &ShaderProgram,
        name: &String,
        uniform: UniformValue,
    ) -> (result: Result<Command, GolemError>)
        ensures
            outcome_view(result) == uniform_binding(shader@, name@, uniform),
    {
        match declared(shader.uniforms(), name) {
            Some(expected) => {
                if uniform.fits(expected) {
                    Ok(uniform_command(shader.id(), name, uniform))
                } else {
                    Err(
                        GolemError::UniformTypeMismatch {
                            name: name.clone(),
                            expected,
                            got: uniform.uniform_type(),
                        },
                    )
                }
            },
            None => Ok(uniform_command(shader.id(), name, uniform)),
        }
    }

    /// The commands that set up the vertex attributes of `shader`.
    fn layout(&self, shader: &ShaderProgram) -> (commands: Vec<Command>)
        ensures
            command_views(commands@) == layout_commands(shader@.input),
    {
        let input = shader.input();
        let record = shader.stride();
        let ghost views = attribute_views(input@);
        let ghost pairs = Seq::new(views.len(), |i: int| attribute_commands(views, i));
        let mut commands: Vec<Command> = Vec::new();
        let mut offset: i32 = 0;
        let mut i: usize = 0;
        assert(command_views(commands@) =~= pairs.take(0).flatten());
        proof {
            assert(views.take(0).len() == 0);
        }
        while i < input.len()
            invariant
                i <= input.len(),
                views == attribute_views(input@),
                layout_fits(views),
                record == stride(views),
                pairs == Seq::new(views.len(), |i: int| attribute_commands(views, i)),
                offset == attribute_offset(views, i as int),
                command_views(commands@) == pairs.take(i as int).flatten(),
            decreases input.len() - i,
        {
            let size = input[i].size();
            proof {
                lemma_layout_packed(views, i as int);
            }
            let ghost before = command_views(commands@);
            commands.push(Command::EnableVertexAttribArray { index: i as u32 });
            commands.push(
                Command::VertexAttribPointer { index: i as u32, size, stride: record, offset },
            );
            proof {
                assert(command_views(commands@) =~= before + pairs[i as int]);
                assert(pairs.take(i + 1) =~= pairs.take(i as int).push(pairs[i as int]));
            }
            offset += size * FLOAT_BYTES;
            i += 1;
        }
        assert(pairs.take(i as int) =~= pairs);
        commands
    }

    /// The commands that set the uniforms of an entry, or the first mismatch.
    fn bind_uniforms(
        &self,
        shader: &ShaderProgram,
        uniforms: &Vec<(String, UniformValue)>,
    ) -> (result: Result<Vec<Command>, GolemError>)
        ensures
            plan_view(result) == uniform_bindings(
                shader@,
                uniforms@.map_values(|u: (String, UniformValue)| (u.0@, u.1)),
            ),
    {
        let ghost views = uniforms@.map_values(|u: (String, UniformValue)| (u.0@, u.1));
        let mut commands: Vec<Command> = Vec::new();
        let mut i: usize = 0;
        assert(command_views(commands@) =~= Seq::empty());
        assert(views.take(0) =~= Seq::empty());
        while i < uniforms.len()
            invariant
                i <= uniforms.len(),
                views == uniforms@.map_values(|u: (String, UniformValue)| (u.0@, u.1)),
                uniform_bindings(shader@, views.take(i as int)) == Ok::<_, GolemErrorView>(
                    command_views(commands@),
                ),
            decreases uniforms.len() - i,
        {
            let ghost before = command_views(commands@);
            proof {
                assert(views.take(i + 1).drop_last() =~= views.take(i as int));
                assert(views.take(i + 1).last() == views[i as int]);
                lemma_bindings_prefix(shader@, views, i + 1);
            }
            match self.bind_uniform(shader, &uniforms[i].0, uniforms[i].1) {
                Ok(command) => {
                    commands.push(command);
                    assert(command_views(commands@) =~= before.push(command@));
                },
                Err(error) => {
                    return Err(error);
                },
            }
            i += 1;
        }
        assert(views.take(i as int) =~= views);
        Ok(commands)
    }

    /// The commands of one entry of a draw list.
    fn draw_entry(
        &self,
        shader: &ShaderProgram,
        capacity: usize,
        entry: &DrawList,
    ) -> (result: Result<Vec<Command>, GolemError>)
        requires
            capacity <= i32::MAX,
        ensures
            plan_view(result) == entry_commands(shader@, capacity as nat, entry@),
    {
        let mut commands = match self.bind_uniforms(shader, &entry.uniforms) {
            Ok(commands) => commands,
            Err(error) => {
                return Err(error);
            },
        };
        if entry.range.start > entry.range.end || entry.range.end > capacity / INDEX_BYTES {
            return Err(GolemError::BufferBoundsViolation);
        }
        let ghost before = command_views(commands@);
        commands.push(
            Command::DrawElements {
                count: (entry.range.end - entry.range.start) as i32,
                offset: (INDEX_BYTES * entry.range.start) as i32,
            },
        );
        assert(command_views(commands@) =~= before.push(draw_call(entry@)));
        Ok(commands)
    }

    /// Draws the entries of `draw_list` with `shader` from the vertices in
    /// `vb` and the indices in `eb`. The program and the buffers are bound
    /// once; each entry then sets its uniforms, in their order, and draws
    /// its range of indices. The result is the commands for the device, in
    /// order, or the first error, and then nothing is to be sent.
    pub fn draw(
        &mut self,
        shader: &ShaderProgram,
        vb: &VertexBuffer,
        eb: &ElementBuffer,
        draw_list: &[DrawList],
    ) -> (result: Result<Vec<Command>, GolemError>)
        ensures
            plan_view(result) == draw_commands(shader@, vb@, eb@, draw_list_views(draw_list@)),
            final(self)@ == old(self)@,
    {
        let ghost entries = draw_list_views(draw_list@);
        let capacity = eb.buffer().capacity();
        let mut commands: Vec<Command> = Vec::new();
        commands.push(Command::UseProgram { program: shader.id() });
        commands.push(self.bind(vb.buffer(), BufferTarget::Vertex));
        commands.push(self.bind(eb.buffer(), BufferTarget::Index));
        let ghost head = bind_commands(shader@.id, vb@.id, eb@.id) + layout_commands(
            shader@.input,
        );
        assert(command_views(commands@) =~= bind_commands(shader@.id, vb@.id, eb@.id));
        let mut attributes = self.layout(shader);
        commands.append(&mut attributes);
        assert(command_views(commands@) =~= head);
        let ghost mut tail: Seq<CommandView> = Seq::empty();
        let mut k: usize = 0;
        assert(entries.take(0) =~= Seq::empty());
        assert(head + tail =~= head);
        while k < draw_list.len()
            invariant
                k <= draw_list.len(),
                capacity <= i32::MAX,
                capacity == eb@.capacity,
                entries == draw_list_views(draw_list@),
                entries_commands(shader@, capacity as nat, entries.take(k as int)) == Ok::<
                    _,
                    GolemErrorView,
                >(tail),
                command_views(commands@) == head + tail,
                *self == *old(self),
            decreases draw_list.len() - k,
        {
            proof {
                assert(entries.take(k + 1).drop_last() =~= entries.take(k as int));
                assert(entries.take(k + 1).last() == entries[k as int]);
                lemma_entries_prefix(shader@, capacity as nat, entries, k + 1);
            }
            match self.draw_entry(shader, capacity, &draw_list[k]) {
                Ok(mut more) => {
                    let ghost before = command_views(commands@);
                    let ghost added = command_views(more@);
                    commands.append(&mut more);
                    proof {
                        assert(command_views(commands@) =~= before + added);
                        assert(before + added =~= head + (tail + added));
                        tail = tail + added;
                    }
                },
                Err(error) => {
                    return Err(error);
                },
            }
            k += 1;
        }
        assert(entries.take(k as int) =~= entries);
        Ok(commands)
    }
}

/// An error among the first uniforms of an entry is the error of them all.
pub proof fn lemma_bindings_prefix(
    shader: ShaderProgramView,
    uniforms: Seq<(Seq<char>, UniformValue)>,
    i: int,
)
    requires
        0 <= i <= uniforms.len(),
    ensures
        uniform_bindings(shader, uniforms.take(i)) is Err ==> uniform_bindings(shader, uniforms)
            == uniform_bindings(shader, uniforms.take(i)),
    decreases uniforms.len(),
{
    if i == uniforms.len() {
        assert(uniforms.take(i) =~= uniforms);
    } else {
        assert(uniforms.drop_last().take(i) =~= uniforms.take(i));
        lemma_bindings_prefix(shader, uniforms.drop_last(), i);
    }
}

/// An error among the first entries of a draw list is the error of them all.
pub proof fn lemma_entries_prefix(
    shader: ShaderProgramView,
    capacity: nat,
    entries: Seq<DrawListView>,
    k: int,
)
    requires
        0 <= k <= entries.len(),
    ensures
        entries_commands(shader, capacity, entries.take(k)) is Err ==> entries_commands(
            shader,
            capacity,
            entries,
        ) == entries_commands(shader, capacity, entries.take(k)),
    decreases entries.len(),
{
    if k == entries.len() {
        assert(entries.take(k) =~= entries);
    } else {
        assert(entries.drop_last().take(k) =~= entries.take(k));
        lemma_entries_prefix(shader, capacity, entries.drop_last(), k);
    }
}

/// The indexed draws among the commands, in order.
pub open spec fn draws(commands: Seq<CommandView>) -> Seq<CommandView>
    decreases commands.len(),
{
    if commands.len() == 0 {
        Seq::empty()
    } else if commands.last() is DrawElements {
        draws(commands.drop_last()).push(commands.last())
    } else {
        draws(commands.drop_last())
    }
}

/// The commands of one entry that has no error: the command for each of its
/// uniforms, in their order, then its draw.
pub open spec fn batch(program: u32, entry: DrawListView) -> Seq<CommandView> {
    entry.uniforms.map_values(|u: (Seq<char>, UniformValue)| set_uniform(program, u.0, u.1)).push(
        draw_call(entry),
    )
}

/// The draws among two runs of commands are those of the first, then those
/// of the second.
pub proof fn lemma_draws_concat(a: Seq<CommandView>, b: Seq<CommandView>)
    ensures
        draws(a + b) == draws(a) + draws(b),
    decreases b.len(),
{
    if b.len() == 0 {
        assert(a + b =~= a);
        assert(draws(a) + draws(b) =~= draws(a));
    } else {
        assert((a + b).drop_last() =~= a + b.drop_last());
        assert((a + b).last() == b.last());
        lemma_draws_concat(a, b.drop_last());
        assert(draws(a + b) =~= draws(a) + draws(b));
    }
}

/// Where the uniforms of an entry all bind, their commands are one command
/// for each, in their order, and no draw is among them.
pub proof fn lemma_bindings_in_order(
    shader: ShaderProgramView,
    uniforms: Seq<(Seq<char>, UniformValue)>,
)
    requires
        uniform_bindings(shader, uniforms) is Ok,
    ensures
        uniform_bindings(shader, uniforms)->Ok_0 == uniforms.map_values(
            |u: (Seq<char>, UniformValue)| set_uniform(shader.id, u.0, u.1),
        ),
        draws(uniform_bindings(shader, uniforms)->Ok_0).len() == 0,
        forall|i: int|
            0 <= i < uniforms.len() ==> binds(shader, (#[trigger] uniforms[i]).0, uniforms[i].1),
    decreases uniforms.len(),
{
    let set = |u: (Seq<char>, UniformValue)| set_uniform(shader.id, u.0, u.1);
    if uniforms.len() == 0 {
        assert(uniforms.map_values(set) =~= Seq::empty());
    } else {
        lemma_bindings_in_order(shader, uniforms.drop_last());
        assert(uniforms.map_values(set) =~= uniforms.drop_last().map_values(set).push(
            set(uniforms.last()),
        ));
        let commands = uniform_bindings(shader, uniforms)->Ok_0;
        assert(commands.drop_last() =~= uniform_bindings(shader, uniforms.drop_last())->Ok_0);
        assert forall|i: int| 0 <= i < uniforms.len() implies binds(
            shader,
            (#[trigger] uniforms[i]).0,
            uniforms[i].1,
        ) by {
            if i < uniforms.len() - 1 {
                assert(uniforms.drop_last()[i] == uniforms[i]);
            }
        }
    }
}

/// Where no entry has an error, the commands of the entries are their
/// batches, one after the other, and the draws among them are the draws of
/// the entries, one for each, in their order.
pub proof fn lemma_entries_in_order(
    shader: ShaderProgramView,
    capacity: nat,
    entries: Seq<DrawListView>,
)
    requires
        entries_commands(shader, capacity, entries) is Ok,
    ensures
        entries_commands(shader, capacity, entries)->Ok_0 == entries.map_values(
            |e: DrawListView| batch(shader.id, e),
        ).flatten(),
        draws(entries_commands(shader, capacity, entries)->Ok_0) == entries.map_values(
            |e: DrawListView| draw_call(e),
        ),
        forall|k: int|
            0 <= k < entries.len() ==> range_fits(
                capacity,
                (#[trigger] entries[k]).start,
                entries[k].end,
            ) && uniform_bindings(shader, entries[k].uniforms) is Ok,
    decreases entries.len(),
{
    let batches = entries.map_values(|e: DrawListView| batch(shader.id, e));
    let calls = entries.map_values(|e: DrawListView| draw_call(e));
    if entries.len() == 0 {
        assert(batches =~= Seq::empty());
        assert(calls =~= Seq::empty());
    } else {
        let front = entries.drop_last();
        let last = entries.last();
        lemma_entries_in_order(shader, capacity, front);
        lemma_bindings_in_order(shader, last.uniforms);
        let before = entries_commands(shader, capacity, front)->Ok_0;
        let bindings = uniform_bindings(shader, last.uniforms)->Ok_0;
        let more = entry_commands(shader, capacity, last)->Ok_0;
        assert(more == batch(shader.id, last));
        assert(batches =~= front.map_values(|e: DrawListView| batch(shader.id, e)).push(
            batch(shader.id, last),
        ));
        assert(calls =~= front.map_values(|e: DrawListView| draw_call(e)).push(draw_call(last)));
        lemma_draws_concat(before, more);
        assert(more.drop_last() =~= bindings);
        assert(draws(more) =~= seq![draw_call(last)]);
        assert(draws(before + more) =~= calls);
        assert forall|k: int| 0 <= k < entries.len() implies range_fits(
            capacity,
            (#[trigger] entries[k]).start,
            entries[k].end,
        ) && uniform_bindings(shader, entries[k].uniforms) is Ok by {
            if k < entries.len() - 1 {
                assert(front[k] == entries[k]);
            }
        }
    }
}

/// Commands of which none is a draw hold no draws.
pub proof fn lemma_draws_nothing(commands: Seq<CommandView>)
    requires
        forall|i: int| 0 <= i < commands.len() ==> !(#[trigger] commands[i] is DrawElements),
    ensures
        draws(commands).len() == 0,
    decreases commands.len(),
{
    if commands.len() > 0 {
        assert(commands.last() == commands[commands.len() - 1]);
        lemma_draws_nothing(commands.drop_last());
    }
}

/// No draw is among the commands that set up the vertex attributes.
pub proof fn lemma_layout_draws_nothing(input: Seq<AttributeView>)
    ensures
        draws(layout_commands(input)).len() == 0,
{
    let pairs = Seq::new(input.len(), |i: int| attribute_commands(input, i));
    lemma_pairs_draw_nothing(input, input.len() as int);
    assert(pairs.take(input.len() as int) =~= pairs);
}

/// No draw is among the commands that set up the first `n` vertex attributes.
proof fn lemma_pairs_draw_nothing(input: Seq<AttributeView>, n: int)
    requires
        0 <= n <= input.len(),
    ensures
        draws(Seq::new(input.len(), |i: int| attribute_commands(input, i)).take(n).flatten()).len()
            == 0,
    decreases n,
{
    let pairs = Seq::new(input.len(), |i: int| attribute_commands(input, i));
    if n == 0 {
        assert(pairs.take(0) =~= Seq::empty());
        assert(pairs.take(0).flatten() =~= Seq::empty());
    } else {
        lemma_pairs_draw_nothing(input, n - 1);
        assert(pairs.take(n) =~= pairs.take(n - 1).push(pairs[n - 1]));
        let pair = pairs[n - 1];
        lemma_draws_concat(pairs.take(n - 1).flatten(), pair);
        lemma_draws_nothing(pair);
    }
}

/// A draw of a list of entries that has no error sends,
/// after the binds and the set-up of the attributes, the batch of each entry
/// in order: the commands for the entry's uniforms, in their declared order,
/// and then the entry's draw. So the device sees exactly one indexed draw
/// for each entry, over the entry's own range of indices, which lies in the
/// index buffer, and sees the entry's uniforms right before it.
pub proof fn lemma_draw_dispatch(
    shader: ShaderProgramView,
    vertices: BufferView,
    indices: BufferView,
    entries: Seq<DrawListView>,
)
    requires
        draw_commands(shader, vertices, indices, entries) is Ok,
    ensures
        draw_commands(shader, vertices, indices, entries)->Ok_0 == bind_commands(
            shader.id,
            vertices.id,
            indices.id,
        ) + layout_commands(shader.input) + entries.map_values(
            |e: DrawListView| batch(shader.id, e),
        ).flatten(),
        draws(draw_commands(shader, vertices, indices, entries)->Ok_0) == entries.map_values(
            |e: DrawListView| draw_call(e),
        ),
        draws(draw_commands(shader, vertices, indices, entries)->Ok_0).len() == entries.len(),
        forall|k: int|
            0 <= k < entries.len() ==> range_fits(
                indices.capacity,
                (#[trigger] entries[k]).start,
                entries[k].end,
            ),
{
    lemma_entries_in_order(shader, indices.capacity, entries);
    lemma_layout_draws_nothing(shader.input);
    let binds = bind_commands(shader.id, vertices.id, indices.id);
    let layout = layout_commands(shader.input);
    let tail = entries_commands(shader, indices.capacity, entries)->Ok_0;
    lemma_draws_concat(binds + layout, tail);
    lemma_draws_concat(binds, layout);
    lemma_draws_nothing(binds);
    assert(draws(binds + layout + tail) =~= draws(tail));
}

/// A draw that has no error has sent no value to a uniform whose declared
/// type does not accept it: every value of every entry binds.
pub proof fn lemma_draw_enforces_types(
    shader: ShaderProgramView,
    vertices: BufferView,
    indices: BufferView,
    entries: Seq<DrawListView>,
    k: int,
    u: int,
)
    requires
        draw_commands(shader, vertices, indices, entries) is Ok,
        0 <= k < entries.len(),
        0 <= u < entries[k].uniforms.len(),
    ensures
        binds(shader, entries[k].uniforms[u].0, entries[k].uniforms[u].1),
{
    lemma_entries_in_order(shader, indices.capacity, entries);
    lemma_bindings_in_order(shader, entries[k].uniforms);
}

} // verus!
