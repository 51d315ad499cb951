//! The draw call for textured, colored quads, and the bindings around it.

use crate::call::{batch_well_formed, calls_view, Call, CallView};
use crate::program::{use_program, ShaderProgram};
use vstd::prelude::*;

verus! {

/// The bytes of one vertex with a position, a texture coordinate and a color:
/// two, two and four 32-bit numbers, tightly packed.
pub const TEXTURED_COLORED_VERTEX_SIZE: usize = 32;

/// What is bound in the driver, as far as drawing quads goes. Zero stands for
/// nothing bound.
pub struct Bindings {
    /// The current program.
    pub program: u32,
    /// The active texture.
    pub texture: u32,
    /// The array buffer.
    pub array_buffer: u32,
    /// The vertex array.
    pub vertex_array: u32,
}

impl Bindings {
    /// Nothing is bound.
    pub open spec fn cleared() -> Bindings {
        Bindings { program: 0, texture: 0, array_buffer: 0, vertex_array: 0 }
    }

    /// The bindings after `call` was made.
    pub open spec fn after(self, call: CallView) -> Bindings {
        match call {
            CallView::UseProgram { program } => Bindings { program, ..self },
            CallView::BindTexture { texture } => Bindings { texture, ..self },
            CallView::ReleaseTexture { .. } => Bindings { texture: 0, ..self },
            CallView::BindArrayBuffer { vertex_buffer } => Bindings {
                array_buffer: vertex_buffer,
                ..self
            },
            CallView::BindVertexArray { array } => Bindings { vertex_array: array, ..self },
            _ => self,
        }
    }

    /// The bindings after the calls of `calls` were made in order.
    pub open spec fn after_all(self, calls: Seq<CallView>) -> Bindings
        decreases calls.len(),
    {
        if calls.len() == 0 {
            self
        } else {
            self.after_all(calls.drop_last()).after(calls.last())
        }
    }
}

/// The number of vertices that `call` draws: none unless it is a draw call.
pub open spec fn vertices_of(call: CallView) -> int {
    match call {
        CallView::DrawTriangles { count, .. } => count as int,
        _ => 0,
    }
}

/// The number of vertices that the calls of `calls` draw.
pub open spec fn vertices_drawn(calls: Seq<CallView>) -> int
    decreases calls.len(),
{
    if calls.len() == 0 {
        0
    } else {
        vertices_drawn(calls.drop_last()) + vertices_of(calls.last())
    }
}

/// The calls that draw `vertex_count` vertices: the program and the texture
/// are bound, all the vertices are uploaded into the vertex buffer, one draw
/// call covers them under the vertex array, and everything is unbound again.
pub open spec fn draw_calls(
    vertex_count: nat,
    program: u32,
    texture: u32,
    vertex_buffer: u32,
    vertex_array: u32,
) -> Seq<CallView> {
    seq![
        CallView::UseProgram { program },
        CallView::BindTexture { texture },
        CallView::BindArrayBuffer { vertex_buffer },
        CallView::ArrayBufferData { size: (vertex_count * TEXTURED_COLORED_VERTEX_SIZE) as isize },
        CallView::BindVertexArray { array: vertex_array },
        CallView::DrawTriangles { first: 0, count: vertex_count as i32 },
        CallView::BindVertexArray { array: 0 },
        CallView::BindArrayBuffer { vertex_buffer: 0 },
        CallView::ReleaseTexture { texture },
        CallView::UseProgram { program: 0 },
    ]
}

/// Plans the drawing of `vertex_count` textured, colored vertices with
/// `shader_program` and `texture`, through a vertex buffer and a vertex array
/// that the caller has allocated.
///
/// None of the calls yields a reply. The upload takes its data from the
/// caller's vertices: `TEXTURED_COLORED_VERTEX_SIZE` bytes each.
pub fn draw_textured_colored_quads(
    vertex_count: usize,
    shader_program: &ShaderProgram,
    texture: u32,
    vertex_buffer: u32,
    vertex_attributes_array: u32,
) -> (calls: Vec<Call>)
    requires
        vertex_count <= i32::MAX,
        vertex_count * TEXTURED_COLORED_VERTEX_SIZE <= isize::MAX,
    ensures
        calls_view(calls@) == draw_calls(
            vertex_count as nat,
            shader_program@.id,
            texture,
            vertex_buffer,
            vertex_attributes_array,
        ),
        batch_well_formed(calls_view(calls@)),
{
    let size: isize = (vertex_count * TEXTURED_COLORED_VERTEX_SIZE) as isize;
    let count: i32 = vertex_count as i32;
    let calls = vec![
        use_program(shader_program),
        Call::BindTexture { texture },
        Call::BindArrayBuffer { vertex_buffer },
        Call::ArrayBufferData { size },
        Call::BindVertexArray { array: vertex_attributes_array },
        Call::DrawTriangles { first: 0, count },
        Call::BindVertexArray { array: 0 },
        Call::BindArrayBuffer { vertex_buffer: 0 },
        Call::ReleaseTexture { texture },
        Call::UseProgram { program: 0 },
    ];
    assert(calls_view(calls@) =~= draw_calls(
        vertex_count as nat,
        shader_program@.id,
        texture,
        vertex_buffer,
        vertex_attributes_array,
    ));
    calls
}

/// The bindings after one call more are those after the calls before it,
/// changed by that call.
proof fn lemma_after_all_take(before: Bindings, calls: Seq<CallView>, made: int)
    requires
        0 <= made < calls.len(),
    ensures
        before.after_all(calls.take(made + 1)) == before.after_all(calls.take(made)).after(
            calls[made],
        ),
{
    assert(calls.take(made + 1).drop_last() =~= calls.take(made));
}

/// The vertices drawn after one call more are those drawn before it and
/// those that the call draws.
proof fn lemma_vertices_drawn_take(calls: Seq<CallView>, made: int)
    requires
        0 <= made < calls.len(),
    ensures
        vertices_drawn(calls.take(made + 1)) == vertices_drawn(calls.take(made)) + vertices_of(
            calls[made],
        ),
{
    assert(calls.take(made + 1).drop_last() =~= calls.take(made));
}

/// Whatever was bound before, the draw call is made with the given program,
/// texture, vertex buffer and vertex array bound, and nothing is bound once
/// the drawing is over.
pub proof fn lemma_draw_binds_and_clears(
    before: Bindings,
    vertex_count: nat,
    program: u32,
    texture: u32,
    vertex_buffer: u32,
    vertex_array: u32,
)
    ensures
        ({
            let calls = draw_calls(vertex_count, program, texture, vertex_buffer, vertex_array);
            &&& calls[5] is DrawTriangles
            &&& before.after_all(calls.take(5)) == Bindings {
                program,
                texture,
                array_buffer: vertex_buffer,
                vertex_array,
            }
            &&& before.after_all(calls) == Bindings::cleared()
        }),
{
    let calls = draw_calls(vertex_count, program, texture, vertex_buffer, vertex_array);
    assert(before.after_all(calls.take(0)) == before);
    lemma_after_all_take(before, calls, 0);
    lemma_after_all_take(before, calls, 1);
    lemma_after_all_take(before, calls, 2);
    lemma_after_all_take(before, calls, 3);
    lemma_after_all_take(before, calls, 4);
    lemma_after_all_take(before, calls, 5);
    lemma_after_all_take(before, calls, 6);
    lemma_after_all_take(before, calls, 7);
    lemma_after_all_take(before, calls, 8);
    lemma_after_all_take(before, calls, 9);
    assert(calls.take(10) =~= calls);
}

/// The one draw call of a drawing covers exactly the vertices given, none
/// where none are given.
pub proof fn lemma_draw_covers_vertices(
    vertex_count: nat,
    program: u32,
    texture: u32,
    vertex_buffer: u32,
    vertex_array: u32,
)
    requires
        vertex_count <= i32::MAX,
    ensures
        vertices_drawn(draw_calls(vertex_count, program, texture, vertex_buffer, vertex_array))
            == vertex_count,
{
    let calls = draw_calls(vertex_count, program, texture, vertex_buffer, vertex_array);
    assert(vertices_drawn(calls.take(0)) == 0);
    lemma_vertices_drawn_take(calls, 0);
    lemma_vertices_drawn_take(calls, 1);
    lemma_vertices_drawn_take(calls, 2);
    lemma_vertices_drawn_take(calls, 3);
    lemma_vertices_drawn_take(calls, 4);
    lemma_vertices_drawn_take(calls, 5);
    lemma_vertices_drawn_take(calls, 6);
    lemma_vertices_drawn_take(calls, 7);
    lemma_vertices_drawn_take(calls, 8);
    lemma_vertices_drawn_take(calls, 9);
    assert(calls.take(10) =~= calls);
}

} // verus!
