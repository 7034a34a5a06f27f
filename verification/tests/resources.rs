use gl_triangle::error::{GlError, ShaderStage};
use gl_triangle::resources::{BindingState, Buffer, BufferTarget, Program, Shader, VertexArray};
use gl_triangle::scene::vertex_data_len;

#[test]
fn vertex_array_wraps_nonzero_handle() {
    let va = VertexArray::new(7).unwrap();
    assert_eq!(va.handle(), 7);
}

#[test]
fn vertex_array_zero_handle_is_error() {
    let r = VertexArray::new(0);
    assert_eq!(r.unwrap_err(), GlError::VertexArrayCreation);
}

#[test]
fn buffer_zero_handle_is_error() {
    let r = Buffer::new(0);
    assert_eq!(r.unwrap_err(), GlError::BufferCreation);
}

#[test]
fn program_zero_handle_is_error() {
    let r = Program::new(0);
    assert_eq!(r.unwrap_err(), GlError::ProgramCreation);
}

#[test]
fn shader_zero_handle_is_error() {
    let r = Shader::from_compile_result(ShaderStage::Vertex, 0, true, String::new());
    assert_eq!(r.unwrap_err(), GlError::ShaderCreation(ShaderStage::Vertex));
}

#[test]
fn compile_success_wraps_handle() {
    let s = Shader::from_compile_result(ShaderStage::Fragment, 4, true, String::new()).unwrap();
    assert_eq!(s.handle(), 4);
    assert_eq!(s.kind(), ShaderStage::Fragment);
}

#[test]
fn compile_failure_carries_log() {
    let log = "0:2(1): error: syntax error, unexpected NEW_IDENTIFIER".to_string();
    let r = Shader::from_compile_result(ShaderStage::Vertex, 4, false, log.clone());
    match r.unwrap_err() {
        GlError::CompileFailed(stage, text) => {
            assert_eq!(stage, ShaderStage::Vertex);
            assert_eq!(text, log);
            assert!(!text.is_empty());
        }
        other => panic!("expected a compile failure, got {:?}", other),
    }
}

#[test]
fn shader_delete_returns_handle() {
    let s = Shader::from_compile_result(ShaderStage::Vertex, 9, true, String::new()).unwrap();
    assert_eq!(s.delete(), 9);
}

#[test]
fn upload_allocates_exact_size() {
    let mut bindings = BindingState::new();
    let mut vb = Buffer::new(2).unwrap();
    assert_eq!(vb.allocation_size(), None);
    vb.bind(BufferTarget::ArrayBuffer, &mut bindings);
    let len = vertex_data_len(3).unwrap();
    assert_eq!(len, 36);
    let bytes = vec![0u8; len];
    vb.data(BufferTarget::ArrayBuffer, &bindings, &bytes);
    assert_eq!(vb.allocation_size(), Some(36));
}

#[test]
fn reupload_replaces_allocation() {
    let mut bindings = BindingState::new();
    let mut vb = Buffer::new(5).unwrap();
    vb.bind(BufferTarget::ArrayBuffer, &mut bindings);
    vb.data(BufferTarget::ArrayBuffer, &bindings, &vec![0u8; 36]);
    vb.data(BufferTarget::ArrayBuffer, &bindings, &vec![0u8; 24]);
    assert_eq!(vb.allocation_size(), Some(24));
    assert_eq!(vb.handle(), 5);
}

#[test]
fn link_success_marks_program_linked() {
    let vs = Shader::from_compile_result(ShaderStage::Vertex, 3, true, String::new()).unwrap();
    let fs = Shader::from_compile_result(ShaderStage::Fragment, 4, true, String::new()).unwrap();
    let mut program = Program::new(5).unwrap();
    program.attach(&vs);
    program.attach(&fs);
    assert!(program.vertex_attached());
    assert!(program.fragment_attached());
    assert!(!program.linked());
    program.link(true, String::new()).unwrap();
    assert!(program.linked());
}

#[test]
fn link_failure_carries_log() {
    let vs = Shader::from_compile_result(ShaderStage::Vertex, 3, true, String::new()).unwrap();
    let fs = Shader::from_compile_result(ShaderStage::Fragment, 4, true, String::new()).unwrap();
    let mut program = Program::new(5).unwrap();
    program.attach(&vs);
    program.attach(&fs);
    let log = "error: undefined reference to `missing'".to_string();
    match program.link(false, log.clone()).unwrap_err() {
        GlError::LinkFailed(text) => {
            assert_eq!(text, log);
            assert!(!text.is_empty());
        }
        other => panic!("expected a link failure, got {:?}", other),
    }
    assert!(!program.linked());
}

#[test]
fn binding_state_tracks_binds_and_unbinds() {
    let mut bindings = BindingState::new();
    assert_eq!(bindings.bound_vertex_array, 0);
    assert_eq!(bindings.bound_array_buffer, 0);
    assert_eq!(bindings.active_program, 0);

    let va = VertexArray::new(1).unwrap();
    va.bind(&mut bindings);
    assert_eq!(bindings.bound_vertex_array, 1);

    let vb = Buffer::new(2).unwrap();
    vb.bind(BufferTarget::ArrayBuffer, &mut bindings);
    assert_eq!(bindings.bound_array_buffer, 2);
    assert_eq!(bindings.bound_vertex_array, 1);

    vb.unbind(BufferTarget::ArrayBuffer, &mut bindings);
    assert_eq!(bindings.bound_array_buffer, 0);
    va.unbind(&mut bindings);
    assert_eq!(bindings.bound_vertex_array, 0);
}

#[test]
fn use_program_activates_handle() {
    let vs = Shader::from_compile_result(ShaderStage::Vertex, 3, true, String::new()).unwrap();
    let fs = Shader::from_compile_result(ShaderStage::Fragment, 4, true, String::new()).unwrap();
    let mut program = Program::new(6).unwrap();
    program.attach(&vs);
    program.attach(&fs);
    program.link(true, String::new()).unwrap();
    let mut bindings = BindingState::new();
    program.use_program(&mut bindings);
    assert_eq!(bindings.active_program, 6);
}
