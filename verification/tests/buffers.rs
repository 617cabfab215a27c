use golem::buffer::Buffer;
use golem::context::Context;
use golem::device::{BufferTarget, Command};
use golem::program::Target;
use golem::GolemError;

fn context() -> Context {
    Context::from_glow(Target::Web, None).unwrap().0
}

fn buffer(id: u32) -> Buffer {
    context().new_buffer(Some(id)).unwrap()
}

#[test]
fn new_buffers_have_no_store() {
    let ctx = context();
    let plain = ctx.new_buffer(Some(3)).unwrap();
    assert_eq!((plain.id(), plain.capacity()), (3, 0));
    let vertices = ctx.new_vertex_buffer(Some(4)).unwrap();
    assert_eq!((vertices.buffer().id(), vertices.buffer().capacity()), (4, 0));
    let indices = ctx.new_element_buffer(Some(5)).unwrap();
    assert_eq!((indices.buffer().id(), indices.buffer().capacity()), (5, 0));
}

#[test]
fn refused_buffer_identity_is_a_resource_allocation_error() {
    let ctx = context();
    assert_eq!(ctx.new_buffer(None), Err(GolemError::ResourceAllocation));
    assert_eq!(ctx.new_vertex_buffer(None), Err(GolemError::ResourceAllocation));
    assert_eq!(ctx.new_element_buffer(None), Err(GolemError::ResourceAllocation));
}

#[test]
fn bind_names_target_and_identity() {
    let ctx = context();
    assert_eq!(
        ctx.bind(&buffer(9), BufferTarget::Vertex),
        Command::BindBuffer { target: BufferTarget::Vertex, buffer: 9 }
    );
    assert_eq!(
        ctx.bind(&buffer(8), BufferTarget::Index),
        Command::BindBuffer { target: BufferTarget::Index, buffer: 8 }
    );
}

#[test]
fn first_upload_allocates_twice_the_extent() {
    let ctx = context();
    let mut b = buffer(2);
    let commands = ctx.upload(&mut b, BufferTarget::Vertex, 0, &[1, 2, 3, 4, 5]).unwrap();
    assert_eq!(
        commands,
        vec![
            Command::BindBuffer { target: BufferTarget::Vertex, buffer: 2 },
            Command::BufferDataSize { target: BufferTarget::Vertex, size: 10 },
            Command::BufferSubData {
                target: BufferTarget::Vertex,
                offset: 0,
                data: vec![1, 2, 3, 4, 5],
            },
        ]
    );
    assert_eq!(b.capacity(), 10);
    assert_eq!(b.id(), 2);
}

#[test]
fn upload_within_capacity_does_not_reallocate() {
    let ctx = context();
    let mut b = buffer(2);
    ctx.upload(&mut b, BufferTarget::Index, 0, &[0; 8]).unwrap();
    assert_eq!(b.capacity(), 16);
    let commands = ctx.upload(&mut b, BufferTarget::Index, 8, &[7; 8]).unwrap();
    assert_eq!(
        commands,
        vec![
            Command::BindBuffer { target: BufferTarget::Index, buffer: 2 },
            Command::BufferSubData { target: BufferTarget::Index, offset: 8, data: vec![7; 8] },
        ]
    );
    assert_eq!(b.capacity(), 16);
}

#[test]
fn upload_past_capacity_doubles_the_required_extent() {
    let ctx = context();
    let mut b = buffer(2);
    ctx.upload(&mut b, BufferTarget::Vertex, 0, &[0; 8]).unwrap();
    let commands = ctx.upload(&mut b, BufferTarget::Vertex, 12, &[9; 5]).unwrap();
    assert_eq!(
        commands,
        vec![
            Command::BindBuffer { target: BufferTarget::Vertex, buffer: 2 },
            Command::BufferDataSize { target: BufferTarget::Vertex, size: 34 },
            Command::BufferSubData { target: BufferTarget::Vertex, offset: 12, data: vec![9; 5] },
        ]
    );
    assert_eq!(b.capacity(), 34);
}

#[test]
fn capacity_covers_each_write_and_never_shrinks() {
    let ctx = context();
    let mut b = buffer(1);
    let writes: [(usize, usize); 8] =
        [(0, 4), (4, 4), (0, 1), (100, 3), (0, 0), (205, 1), (206, 0), (207, 1)];
    let mut previous = b.capacity();
    for (start, len) in writes {
        let data = vec![0xAB; len];
        ctx.upload(&mut b, BufferTarget::Vertex, start, &data).unwrap();
        assert!(b.capacity() >= start + len);
        assert!(b.capacity() >= previous);
        previous = b.capacity();
    }
    assert_eq!(previous, 416);
}

#[test]
fn empty_write_at_the_end_of_the_store_changes_nothing() {
    let ctx = context();
    let mut b = buffer(1);
    ctx.upload(&mut b, BufferTarget::Vertex, 0, &[1, 2]).unwrap();
    let commands = ctx.upload(&mut b, BufferTarget::Vertex, 4, &[]).unwrap();
    assert_eq!(commands.len(), 2);
    assert_eq!(b.capacity(), 4);
    let commands = ctx.upload(&mut b, BufferTarget::Vertex, 5, &[]).unwrap();
    assert_eq!(commands[1], Command::BufferDataSize { target: BufferTarget::Vertex, size: 10 });
    assert_eq!(b.capacity(), 10);
}

#[test]
fn upload_beyond_what_a_device_addresses_is_a_bounds_violation() {
    let ctx = context();
    let mut b = buffer(1);
    ctx.upload(&mut b, BufferTarget::Vertex, 0, &[1, 2, 3]).unwrap();
    let result = ctx.upload(&mut b, BufferTarget::Vertex, 0x4000_0000, &[]);
    assert_eq!(result, Err(GolemError::BufferBoundsViolation));
    assert_eq!(b.capacity(), 6);
    let result = ctx.upload(&mut b, BufferTarget::Vertex, 0x3FFF_FFFF, &[1]);
    assert_eq!(result, Err(GolemError::BufferBoundsViolation));
    assert_eq!(b.capacity(), 6);
    let result = ctx.upload(&mut b, BufferTarget::Vertex, usize::MAX, &[1, 2]);
    assert_eq!(result, Err(GolemError::BufferBoundsViolation));
    assert_eq!(b.capacity(), 6);
}

#[test]
fn largest_addressable_store_is_accepted() {
    let ctx = context();
    let mut b = buffer(1);
    let commands = ctx.upload(&mut b, BufferTarget::Vertex, 0x3FFF_FFFF, &[]).unwrap();
    assert_eq!(
        commands[1],
        Command::BufferDataSize { target: BufferTarget::Vertex, size: 0x7FFF_FFFE }
    );
    assert_eq!(b.capacity(), 0x7FFF_FFFE);
    let commands = ctx.upload(&mut b, BufferTarget::Vertex, 0x7FFF_FFFD, &[5]).unwrap();
    assert_eq!(
        commands,
        vec![
            Command::BindBuffer { target: BufferTarget::Vertex, buffer: 1 },
            Command::BufferSubData {
                target: BufferTarget::Vertex,
                offset: 0x7FFF_FFFD,
                data: vec![5],
            },
        ]
    );
    assert_eq!(b.capacity(), 0x7FFF_FFFE);
    let result = ctx.upload(&mut b, BufferTarget::Vertex, 0x7FFF_FFFE, &[5]);
    assert_eq!(result, Err(GolemError::BufferBoundsViolation));
}

#[test]
fn words_are_sent_as_their_bytes_in_memory() {
    let ctx = context();
    let mut b = buffer(6);
    let words: [u32; 3] = [0, 1, 0x0403_0201];
    let commands = ctx.send_data(&mut b, BufferTarget::Index, 0, &words).unwrap();
    let mut bytes = Vec::new();
    for word in words {
        bytes.extend_from_slice(&word.to_ne_bytes());
    }
    assert_eq!(bytes.len(), 12);
    assert_eq!(
        commands,
        vec![
            Command::BindBuffer { target: BufferTarget::Index, buffer: 6 },
            Command::BufferDataSize { target: BufferTarget::Index, size: 24 },
            Command::BufferSubData { target: BufferTarget::Index, offset: 0, data: bytes },
        ]
    );
    assert_eq!(b.capacity(), 24);
}

#[test]
fn floats_travel_as_their_bits() {
    let ctx = context();
    let mut b = buffer(6);
    let vertices: [f32; 4] = [-0.5, 0.5, 1.0, 0.0];
    let bits: Vec<u32> = vertices.iter().map(|v| v.to_bits()).collect();
    let commands = ctx.send_data(&mut b, BufferTarget::Vertex, 0, &bits).unwrap();
    let expected: &[u8] = bytemuck::cast_slice(&vertices);
    assert_eq!(
        commands[2],
        Command::BufferSubData { target: BufferTarget::Vertex, offset: 0, data: expected.to_vec() }
    );
}

#[test]
fn word_offsets_count_words() {
    let ctx = context();
    let mut b = buffer(6);
    ctx.send_data(&mut b, BufferTarget::Index, 0, &[1, 2, 3, 4]).unwrap();
    assert_eq!(b.capacity(), 32);
    let commands = ctx.send_data(&mut b, BufferTarget::Index, 3, &[9]).unwrap();
    assert_eq!(
        commands,
        vec![
            Command::BindBuffer { target: BufferTarget::Index, buffer: 6 },
            Command::BufferSubData {
                target: BufferTarget::Index,
                offset: 12,
                data: 9u32.to_ne_bytes().to_vec(),
            },
        ]
    );
    let commands = ctx.send_data(&mut b, BufferTarget::Index, 8, &[9]).unwrap();
    assert_eq!(commands[1], Command::BufferDataSize { target: BufferTarget::Index, size: 72 });
    assert_eq!(b.capacity(), 72);
}

#[test]
fn word_offset_beyond_what_a_device_addresses_is_a_bounds_violation() {
    let ctx = context();
    let mut b = buffer(6);
    assert_eq!(
        ctx.send_data(&mut b, BufferTarget::Index, 0x2000_0000, &[]),
        Err(GolemError::BufferBoundsViolation)
    );
    assert_eq!(
        ctx.send_data(&mut b, BufferTarget::Index, usize::MAX, &[1]),
        Err(GolemError::BufferBoundsViolation)
    );
    assert_eq!(b.capacity(), 0);
}

#[test]
fn typed_buffers_grow_through_their_buffer() {
    let ctx = context();
    let mut vertices = ctx.new_vertex_buffer(Some(1)).unwrap();
    ctx.upload(vertices.buffer_mut(), BufferTarget::Vertex, 0, &[0; 64]).unwrap();
    assert_eq!(vertices.buffer().capacity(), 128);
    let mut indices = ctx.new_element_buffer(Some(2)).unwrap();
    ctx.send_data(indices.buffer_mut(), BufferTarget::Index, 0, &[0, 1, 2]).unwrap();
    assert_eq!(indices.buffer().capacity(), 24);
}
