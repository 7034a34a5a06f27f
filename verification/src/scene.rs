use vstd::prelude::*;

verus! {

/// Components per vertex: the position is three coordinates.
pub const FLOATS_PER_VERTEX: u32 = 3;

/// Each component is a 4-byte floating-point value on the GPU.
pub const BYTES_PER_FLOAT: u32 = 4;

/// One tightly packed vertex record: three components of four bytes.
pub const VERTEX_STRIDE_BYTES: u32 = FLOATS_PER_VERTEX * BYTES_PER_FLOAT;

/// The scene's geometry is one triangle: exactly three vertices.
pub const TRIANGLE_VERTEX_COUNT: u32 = 3;

/// The byte size of the upload for `vertex_count` tightly packed vertices of
/// three 4-byte components each, or `None` when that size does not fit in
/// `usize`.
pub fn vertex_data_len(vertex_count: usize) -> (r: Option<usize>)
    ensures
        r matches Some(n) ==> n == vertex_count * VERTEX_STRIDE_BYTES,
        r is Some <==> vertex_count * VERTEX_STRIDE_BYTES <= usize::MAX,
{
    vertex_count.checked_mul(VERTEX_STRIDE_BYTES as usize)
}

/// How the position attribute reads the uploaded data: attribute location,
/// component count, whether components are normalized, the stride from one
/// vertex record to the next, and the offset of the first record.
#[derive(Clone, Copy, Debug, PartialEq, Eq, Structural)]
pub struct VertexAttribute {
    pub location: u32,
    pub component_count: u32,
    pub normalized: bool,
    pub stride_bytes: u32,
    pub offset_bytes: u32,
}

/// The one attribute this scene declares: location 0, three floating-point
/// components, not normalized, stride of one vertex record, offset 0.
pub fn position_attribute() -> (a: VertexAttribute)
    ensures
        a.location == 0,
        a.component_count == FLOATS_PER_VERTEX,
        !a.normalized,
        a.stride_bytes == VERTEX_STRIDE_BYTES,
        a.offset_bytes == 0,
{
    VertexAttribute {
        location: 0,
        component_count: FLOATS_PER_VERTEX,
        normalized: false,
        stride_bytes: VERTEX_STRIDE_BYTES,
        offset_bytes: 0,
    }
}

/// A colour with each channel given in thousandths of full intensity, so that
/// the fixed clear colour can be stated exactly; the binary divides by 1000
/// when handing it to the driver.
#[derive(Clone, Copy, Debug, PartialEq, Eq, Structural)]
pub struct ClearColor {
    pub red_milli: u16,
    pub green_milli: u16,
    pub blue_milli: u16,
    pub alpha_milli: u16,
}

/// The fixed colour every frame is cleared to: (0.2, 0.3, 0.3, 1.0).
pub fn clear_color() -> (c: ClearColor)
    ensures
        c.red_milli == 200,
        c.green_milli == 300,
        c.blue_milli == 300,
        c.alpha_milli == 1000,
{
    ClearColor { red_milli: 200, green_milli: 300, blue_milli: 300, alpha_milli: 1000 }
}

/// One draw call over consecutive vertices of the bound vertex array,
/// interpreted as triangles.
#[derive(Clone, Copy, Debug, PartialEq, Eq, Structural)]
pub struct DrawArraysCall {
    pub first_vertex: u32,
    pub vertex_count: u32,
}

/// The single draw call a frame issues: the whole triangle, from the first
/// vertex.
pub fn triangle_draw_call() -> (d: DrawArraysCall)
    ensures
        d.first_vertex == 0,
        d.vertex_count == TRIANGLE_VERTEX_COUNT,
{
    DrawArraysCall { first_vertex: 0, vertex_count: TRIANGLE_VERTEX_COUNT }
}

/// The embedded vertex-stage source text.
pub open spec fn spec_vertex_shader_source() -> Seq<char> {
    r#"#version 330 core
    layout (location = 0) in vec3 pos;
    void main() {
      gl_Position = vec4(pos.x, pos.y, pos.z, 1.0);
    }
    "#@
}

/// The embedded fragment-stage source text.
pub open spec fn spec_fragment_shader_source() -> Seq<char> {
    r#"#version 330 core
    out vec4 final_color;

    void main() {
        final_color = vec4(1.0, 0.5, 0.2, 1.0);
    }
    "#@
}

/// The fixed vertex-stage source compiled at startup.
pub fn vertex_shader_source() -> (s: &'static str)
    ensures
        s@ == spec_vertex_shader_source(),
{
    r#"#version 330 core
    layout (location = 0) in vec3 pos;
    void main() {
      gl_Position = vec4(pos.x, pos.y, pos.z, 1.0);
    }
    "#
}

/// The fixed fragment-stage source compiled at startup.
pub fn fragment_shader_source() -> (s: &'static str)
    ensures
        s@ == spec_fragment_shader_source(),
{
    r#"#version 330 core
    out vec4 final_color;

    void main() {
        final_color = vec4(1.0, 0.5, 0.2, 1.0);
    }
    "#
}

} // verus!
