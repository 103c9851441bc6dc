use glscaffold::buffer::{Buffer, BufferUsageHint, IndexBuffer, VertexBuffer, VertexBufferTy};
use glscaffold::driver::{info_log_text, GlCall, ObjectKind};
use glscaffold::shader::{Shader, ShaderTy};
use glscaffold::shader_program::ShaderProgram;
use glscaffold::texture::{Texture, TextureFilter, TextureFormat};
use glscaffold::vertex_array::{DrawTy, VertexArray, VertexAttrib, VertexAttribTy};

#[test]
fn zero_handle_is_reported_as_failure() {
    assert!(VertexBuffer::new(0).is_err());
    assert!(IndexBuffer::new(0).is_err());
    assert!(Texture::new(0).is_err());
    assert!(VertexArray::new(0).is_err());
    assert!(Shader::from_source(0, "void main() {}").is_err());
    assert!(ShaderProgram::link(0, &[]).is_err());
    match Buffer::<VertexBufferTy>::new(0) {
        Err(e) => assert_eq!(e.message, "Failed to create GPU buffer"),
        Ok(_) => panic!("a zero handle was accepted"),
    }
}

#[test]
fn live_objects_keep_their_handle() {
    assert_eq!(VertexBuffer::new(3).ok().unwrap().gl_id, 3);
    assert_eq!(VertexArray::new(4).ok().unwrap().gl_id, 4);
    let (texture, _) = Texture::new(5).ok().unwrap();
    assert_eq!(texture.gl_id, 5);
}

#[test]
fn release_twice_deletes_once() {
    let mut buffer = VertexBuffer::new(7).ok().unwrap();
    assert_eq!(buffer.release(), Some(GlCall::Delete { kind: ObjectKind::Buffer, id: 7 }));
    assert_eq!(buffer.gl_id, 0);
    assert_eq!(buffer.release(), None);

    let mut array = VertexArray::new(2).ok().unwrap();
    assert_eq!(array.release(), Some(GlCall::Delete { kind: ObjectKind::VertexArray, id: 2 }));
    assert_eq!(array.release(), None);

    let (mut texture, _) = Texture::new(9).ok().unwrap();
    assert_eq!(texture.release(), Some(GlCall::Delete { kind: ObjectKind::Texture, id: 9 }));
    assert_eq!(texture.release(), None);

    let mut shader = Shader::from_compile_status(ShaderTy::Vertex, 11, true, &[]).ok().unwrap();
    assert_eq!(shader.release(), Some(GlCall::Delete { kind: ObjectKind::Shader, id: 11 }));
    assert_eq!(shader.release(), None);

    let mut program = ShaderProgram::from_link_status(12, true, &[]).ok().unwrap();
    assert_eq!(program.release(), Some(GlCall::Delete { kind: ObjectKind::Program, id: 12 }));
    assert_eq!(program.release(), None);
}

#[test]
fn bind_targets_follow_buffer_kind() {
    let mut vertices = VertexBuffer::new(1).ok().unwrap();
    let (_, calls) = vertices.bind();
    assert_eq!(calls, vec![GlCall::BindBuffer { target: 0x8892, buffer: 1 }]);
    let mut indices = IndexBuffer::new(2).ok().unwrap();
    let (_, calls) = indices.bind();
    assert_eq!(calls, vec![GlCall::BindBuffer { target: 0x8893, buffer: 2 }]);
}

#[test]
fn binding_twice_issues_the_same_calls() {
    let mut buffer = VertexBuffer::new(6).ok().unwrap();
    let first = buffer.bind().1;
    let second = buffer.bind().1;
    assert_eq!(first, second);
    let (mut texture, _) = Texture::new(8).ok().unwrap();
    let first = texture.bind(2).1;
    let second = texture.bind(2).1;
    assert_eq!(first, second);
}

#[test]
fn upload_of_four_vertices_and_two_attributes() {
    let mut buffer = VertexBuffer::new(1).ok().unwrap();
    let data: [[f32; 5]; 4] = [
        [-1.0, 1.3, 0.0, 0.0, 1.0],
        [1.0, 1.3, 0.0, 1.0, 1.0],
        [-1.0, -1.0, 0.0, 0.0, 0.0],
        [1.0, -1.0, 0.0, 1.0, 0.0],
    ];
    let call = buffer.bind().0.upload(&data, BufferUsageHint::DynamicDraw);
    assert_eq!(call, GlCall::BufferData { target: 0x8892, size: 80, usage: 0x88E8 });

    let mut array = VertexArray::new(3).ok().unwrap();
    let mut buffer = VertexBuffer::new(1).ok().unwrap();
    let (bound_buffer, _) = buffer.bind();
    let (mut bound, bind_calls) = array.bind(bound_buffer);
    assert_eq!(bind_calls, vec![GlCall::BindVertexArray { array: 3 }]);
    let calls = bound.set_vertex_attribs(
        20,
        &[
            VertexAttrib { ty: VertexAttribTy::FloatVec3, offset: 0, normalized: false },
            VertexAttrib { ty: VertexAttribTy::FloatVec2, offset: 12, normalized: false },
        ],
    );
    assert_eq!(
        calls,
        vec![
            GlCall::EnableVertexAttribArray { index: 0 },
            GlCall::VertexAttribPointer {
                index: 0,
                size: 3,
                data_type: 0x1406,
                normalized: false,
                stride: 20,
                offset: 0,
            },
            GlCall::EnableVertexAttribArray { index: 1 },
            GlCall::VertexAttribPointer {
                index: 1,
                size: 2,
                data_type: 0x1406,
                normalized: false,
                stride: 20,
                offset: 12,
            },
        ]
    );
}

#[test]
fn upload_size_counts_bytes_of_each_datum() {
    let mut buffer = IndexBuffer::new(4).ok().unwrap();
    let call = buffer.bind().0.upload(&[0u32, 1, 2, 2, 1, 3], BufferUsageHint::StaticDraw);
    assert_eq!(call, GlCall::BufferData { target: 0x8893, size: 24, usage: 0x88E4 });
    let empty: [u16; 0] = [];
    let call = buffer.bind().0.upload(&empty, BufferUsageHint::StreamRead);
    assert_eq!(call, GlCall::BufferData { target: 0x8893, size: 0, usage: 0x88E1 });
}

#[test]
fn usage_hints_map_to_their_enumerants() {
    assert_eq!(BufferUsageHint::DynamicRead.to_gl_usage_hint(), 0x88E9);
    assert_eq!(BufferUsageHint::DynamicDraw.to_gl_usage_hint(), 0x88E8);
    assert_eq!(BufferUsageHint::StaticRead.to_gl_usage_hint(), 0x88E5);
    assert_eq!(BufferUsageHint::StaticDraw.to_gl_usage_hint(), 0x88E4);
    assert_eq!(BufferUsageHint::StreamRead.to_gl_usage_hint(), 0x88E1);
    assert_eq!(BufferUsageHint::StreamDraw.to_gl_usage_hint(), 0x88E0);
}

#[test]
fn draws_carry_topology_and_counts() {
    let mut array = VertexArray::new(3).ok().unwrap();
    let mut vertices = VertexBuffer::new(1).ok().unwrap();
    let mut indices = IndexBuffer::new(2).ok().unwrap();
    let (mut bound, _) = array.bind(vertices.bind().0);
    assert_eq!(
        bound.draw_arrays(DrawTy::TriangleStrip, 0, 4),
        GlCall::DrawArrays { mode: 5, first: 0, count: 4 }
    );
    assert_eq!(
        bound.draw_elements(DrawTy::Triangles, indices.bind().0, 6),
        GlCall::DrawElements { mode: 4, count: 6, index_type: 0x1405, offset: 0 }
    );
    assert_eq!(DrawTy::Points.to_gl_draw_ty(), 0);
    assert_eq!(DrawTy::Lines.to_gl_draw_ty(), 1);
}

#[test]
fn new_texture_gets_nearest_filters_each_through_its_parameter() {
    let (_, calls) = Texture::new(5).ok().unwrap();
    assert_eq!(
        calls,
        vec![
            GlCall::ActiveTexture { texture: 0x84C0 },
            GlCall::BindTexture { target: 0x0DE1, texture: 5 },
            GlCall::ActiveTexture { texture: 0x84C0 },
            GlCall::TexParameteri { target: 0x0DE1, pname: 0x2801, param: 0x2600 },
            GlCall::TexParameteri { target: 0x0DE1, pname: 0x2800, param: 0x2600 },
        ]
    );
}

#[test]
fn set_filters_sets_min_and_mag_apart() {
    let (mut texture, _) = Texture::new(5).ok().unwrap();
    let (mut bound, bind_calls) = texture.bind(3);
    assert_eq!(bound.unit_index, 3);
    assert_eq!(bind_calls[0], GlCall::ActiveTexture { texture: 0x84C3 });
    let calls = bound.set_filters(TextureFilter::Linear, TextureFilter::Nearest);
    assert_eq!(calls[1], GlCall::TexParameteri { target: 0x0DE1, pname: 0x2801, param: 0x2601 });
    assert_eq!(calls[2], GlCall::TexParameteri { target: 0x0DE1, pname: 0x2800, param: 0x2600 });
}

#[test]
fn image_upload_hands_over_the_pixels() {
    let (mut texture, _) = Texture::new(5).ok().unwrap();
    let pixels: Vec<u8> = (0..24).collect();
    let calls = texture.bind(1).0.upload_image_2d(TextureFormat::Rgb, 4, 2, &pixels);
    assert_eq!(
        calls,
        vec![
            GlCall::ActiveTexture { texture: 0x84C1 },
            GlCall::TexImage2D {
                target: 0x0DE1,
                internal_format: 0x1907,
                width: 4,
                height: 2,
                format: 0x1907,
                data_type: 0x1401,
                pixels: pixels.clone(),
            },
        ]
    );
    assert_eq!(TextureFormat::R.bytes_per_pixel(), 1);
    assert_eq!(TextureFormat::Rgba.bytes_per_pixel(), 4);
    assert_eq!(TextureFormat::R.to_gl_format(), 0x1903);
    assert_eq!(TextureFormat::Rgba.to_gl_format(), 0x1908);
}

#[test]
fn compile_success_and_failure() {
    let calls = Shader::from_source(4, "void main() {}").ok().unwrap();
    assert_eq!(
        calls,
        vec![
            GlCall::ShaderSource { shader: 4, source: "void main() {}".to_string() },
            GlCall::CompileShader { shader: 4 },
        ]
    );
    let shader = Shader::from_compile_status(ShaderTy::Fragment, 4, true, &[]).ok().unwrap();
    assert_eq!(shader.gl_id, 4);
    assert_eq!(shader.ty, ShaderTy::Fragment);
    match Shader::from_compile_status(ShaderTy::Vertex, 4, false, b"0:1: syntax error\0") {
        Err(e) => {
            assert_eq!(e.message, "Failed to compile shader");
            assert_eq!(e.info_log, Some("0:1: syntax error".to_string()));
        },
        Ok(_) => panic!("a failed compile gave a shader"),
    }
    assert_eq!(ShaderTy::Vertex.to_gl_shader_ty(), 0x8B31);
    assert_eq!(ShaderTy::Fragment.to_gl_shader_ty(), 0x8B30);
    assert_eq!(ShaderTy::Geometry.to_gl_shader_ty(), 0x8DD9);
}

#[test]
fn info_log_absent_when_empty_or_not_utf8() {
    assert_eq!(info_log_text(&[]), None);
    assert_eq!(info_log_text(&[0]), None);
    assert_eq!(info_log_text(&[0xff, 0xfe, 0]), None);
    assert_eq!(info_log_text(b"bad\0rest"), Some("bad".to_string()));
    assert_eq!(info_log_text("caf\u{e9}".as_bytes()), Some("caf\u{e9}".to_string()));
}

#[test]
fn failed_compile_never_reaches_link() {
    // A shader exists only where the compile succeeded, so no link can use a
    // failed one: the compile error is what the caller gets.
    let result = Shader::from_compile_status(ShaderTy::Vertex, 2, false, b"error\0");
    assert!(result.is_err());
}

#[test]
fn linking_zero_shaders_gives_a_program() {
    let calls = ShaderProgram::link(9, &[]).ok().unwrap();
    assert_eq!(calls, vec![GlCall::LinkProgram { program: 9 }]);
    let program = ShaderProgram::from_link_status(9, true, &[]).ok().unwrap();
    assert_eq!(program.gl_id, 9);
}

#[test]
fn linking_attaches_links_then_detaches() {
    let vertex = Shader::from_compile_status(ShaderTy::Vertex, 2, true, &[]).ok().unwrap();
    let fragment = Shader::from_compile_status(ShaderTy::Fragment, 3, true, &[]).ok().unwrap();
    let calls = ShaderProgram::link(9, &[&vertex, &fragment]).ok().unwrap();
    assert_eq!(
        calls,
        vec![
            GlCall::AttachShader { program: 9, shader: 2 },
            GlCall::AttachShader { program: 9, shader: 3 },
            GlCall::LinkProgram { program: 9 },
            GlCall::DetachShader { program: 9, shader: 2 },
            GlCall::DetachShader { program: 9, shader: 3 },
        ]
    );
    match ShaderProgram::from_link_status(9, false, b"missing main\0") {
        Err(e) => {
            assert_eq!(e.message, "Failed to link shader program");
            assert_eq!(e.info_log, Some("missing main".to_string()));
        },
        Ok(_) => panic!("a failed link gave a program"),
    }
}

#[test]
fn absent_uniform_location_is_a_no_op() {
    let mut program = ShaderProgram::from_link_status(9, true, &[]).ok().unwrap();
    assert_eq!(
        program.get_uniform_location("doesNotExist"),
        Some(GlCall::GetUniformLocation { program: 9, name: "doesNotExist".to_string() })
    );
    assert_eq!(ShaderProgram::location_from_driver(-1), None);
    assert_eq!(ShaderProgram::location_from_driver(3), Some(3));
    assert_eq!(program.get_uniform_location("bad\0name"), None);
    let (mut active, calls) = program.activate();
    assert_eq!(calls, vec![GlCall::UseProgram { program: 9 }]);
    assert!(active.uniform_integer(None, 5).is_empty());
    assert_eq!(active.uniform_integer(Some(2), 5), vec![GlCall::Uniform1i { location: 2, value: 5 }]);
}
