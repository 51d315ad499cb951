//! The draw call for quads against a driver that keeps track of its bindings.

use gl_plan::{
    compile_shader, draw_textured_colored_quads, link_program, Call, Reply, ShaderProgram,
    TEXTURED_COLORED_VERTEX_SIZE,
};

/// What a driver has bound, what was uploaded and what was drawn.
struct BindingDriver {
    program: u32,
    texture: u32,
    array_buffer: u32,
    vertex_array: u32,
    uploads: Vec<(u32, isize)>,
    draws: Vec<(u32, u32, u32, u32, i32, i32)>,
}

impl BindingDriver {
    fn with_leftovers() -> BindingDriver {
        BindingDriver {
            program: 90,
            texture: 91,
            array_buffer: 92,
            vertex_array: 93,
            uploads: Vec::new(),
            draws: Vec::new(),
        }
    }

    fn perform_all(&mut self, calls: Vec<Call>) {
        for call in calls {
            match call {
                Call::UseProgram { program } => self.program = program,
                Call::BindTexture { texture } => self.texture = texture,
                Call::ReleaseTexture { .. } => self.texture = 0,
                Call::BindArrayBuffer { vertex_buffer } => self.array_buffer = vertex_buffer,
                Call::BindVertexArray { array } => self.vertex_array = array,
                Call::ArrayBufferData { size } => self.uploads.push((self.array_buffer, size)),
                Call::DrawTriangles { first, count } => self.draws.push((
                    self.program,
                    self.texture,
                    self.array_buffer,
                    self.vertex_array,
                    first,
                    count,
                )),
                other => panic!("a drawing does not make the call {:?}", other),
            }
        }
    }
}

fn program_with_handle(id: u32) -> ShaderProgram {
    let (link, _) = link_program(&[]);
    let (link, _) = link.step(Reply::Handle(id)).unwrap();
    let (link, _) = link.step(Reply::Value(1)).unwrap();
    link.outcome().unwrap().unwrap()
}

#[test]
fn a_vertex_takes_thirty_two_bytes() {
    assert_eq!(TEXTURED_COLORED_VERTEX_SIZE, 32);
    assert_eq!(TEXTURED_COLORED_VERTEX_SIZE, 8 * std::mem::size_of::<f32>());
}

#[test]
fn six_vertices_are_bound_uploaded_drawn_and_unbound() {
    let program = program_with_handle(4);
    let calls = draw_textured_colored_quads(6, &program, 5, 6, 7);
    assert_eq!(
        calls,
        vec![
            Call::UseProgram { program: 4 },
            Call::BindTexture { texture: 5 },
            Call::BindArrayBuffer { vertex_buffer: 6 },
            Call::ArrayBufferData { size: 192 },
            Call::BindVertexArray { array: 7 },
            Call::DrawTriangles { first: 0, count: 6 },
            Call::BindVertexArray { array: 0 },
            Call::BindArrayBuffer { vertex_buffer: 0 },
            Call::ReleaseTexture { texture: 5 },
            Call::UseProgram { program: 0 },
        ]
    );
}

#[test]
fn no_vertices_draw_nothing_and_leave_nothing_bound() {
    let program = program_with_handle(4);
    let mut driver = BindingDriver::with_leftovers();
    driver.perform_all(draw_textured_colored_quads(0, &program, 5, 6, 7));
    assert_eq!(driver.draws, vec![(4, 5, 6, 7, 0, 0)]);
    assert_eq!(driver.uploads, vec![(6, 0)]);
    assert_eq!(driver.program, 0);
    assert_eq!(driver.texture, 0);
    assert_eq!(driver.array_buffer, 0);
    assert_eq!(driver.vertex_array, 0);
}

#[test]
fn vertices_are_drawn_with_what_was_given_bound() {
    let program = program_with_handle(11);
    let mut driver = BindingDriver::with_leftovers();
    driver.perform_all(draw_textured_colored_quads(12, &program, 21, 31, 41));
    assert_eq!(driver.draws, vec![(11, 21, 31, 41, 0, 12)]);
    assert_eq!(driver.uploads, vec![(31, 384)]);
    assert_eq!(driver.program, 0);
    assert_eq!(driver.texture, 0);
    assert_eq!(driver.array_buffer, 0);
    assert_eq!(driver.vertex_array, 0);
}

#[test]
fn each_drawing_uploads_all_its_vertices_again() {
    let program = program_with_handle(1);
    let mut driver = BindingDriver::with_leftovers();
    driver.perform_all(draw_textured_colored_quads(6, &program, 2, 3, 4));
    driver.perform_all(draw_textured_colored_quads(6, &program, 2, 3, 4));
    assert_eq!(driver.uploads, vec![(3, 192), (3, 192)]);
    assert_eq!(driver.draws, vec![(1, 2, 3, 4, 0, 6), (1, 2, 3, 4, 0, 6)]);
}

#[test]
fn the_largest_count_of_one_draw_call() {
    let program = program_with_handle(1);
    let count = (isize::MAX as usize / TEXTURED_COLORED_VERTEX_SIZE).min(i32::MAX as usize);
    let calls = draw_textured_colored_quads(count, &program, 2, 3, 4);
    assert_eq!(calls[3], Call::ArrayBufferData { size: (count * 32) as isize });
    assert_eq!(calls[5], Call::DrawTriangles { first: 0, count: count as i32 });
}

#[test]
fn a_compiled_shader_can_be_drawn_with_after_linking() {
    let (compilation, _) = compile_shader(b"void main() {}".to_vec(), 0x8B31);
    let (compilation, _) = compilation.step(Reply::Handle(1)).unwrap();
    let (compilation, _) = compilation.step(Reply::Value(1)).unwrap();
    let shader = compilation.outcome().unwrap().unwrap();
    let (link, _) = link_program(&[shader]);
    let (link, _) = link.step(Reply::Handle(2)).unwrap();
    let (link, _) = link.step(Reply::Value(1)).unwrap();
    let program = link.outcome().unwrap().unwrap();
    let calls = draw_textured_colored_quads(3, &program, 0, 0, 0);
    assert_eq!(calls[0], Call::UseProgram { program: 2 });
    assert_eq!(calls[5], Call::DrawTriangles { first: 0, count: 3 });
    assert_eq!(calls.len(), 10);
}
