use hgl::glconst;
use hgl::program::get_info_log;
use hgl::{Ebo, GlCall, Program, Shader, ShaderType, Vbo, VboUsage};

#[test]
fn vbo_upload_covers_every_byte() {
    let data = [0.0f32, 0.5, 1.0, 0.0, 0.0, 0.5, -0.5, 0.0, 1.0, 0.0, -0.5, -0.5, 0.0, 0.0, 1.0];
    let vbo = Vbo::new(7);
    let calls = vbo.load_data(&data, VboUsage::DynamicDraw);
    assert_eq!(
        calls,
        vec![
            GlCall::BindBuffer { target: gl::ARRAY_BUFFER, name: 7 },
            GlCall::BufferData { target: gl::ARRAY_BUFFER, size: 60, usage: gl::DYNAMIC_DRAW },
        ]
    );
}

#[test]
fn vbo_from_data_binds_then_uploads() {
    let data: [u16; 3] = [1, 2, 3];
    let (vbo, calls) = Vbo::from_data(3, &data, VboUsage::StaticDraw);
    assert_eq!(
        calls,
        vec![
            GlCall::BindBuffer { target: gl::ARRAY_BUFFER, name: 3 },
            GlCall::BindBuffer { target: gl::ARRAY_BUFFER, name: 3 },
            GlCall::BufferData { target: gl::ARRAY_BUFFER, size: 6, usage: gl::STATIC_DRAW },
        ]
    );
    assert_eq!(vbo.bind(), GlCall::BindBuffer { target: gl::ARRAY_BUFFER, name: 3 });
}

#[test]
fn vbo_empty_upload_has_zero_size() {
    let data: [u64; 0] = [];
    let calls = Vbo::new(1).load_data(&data, VboUsage::StreamDraw);
    assert_eq!(calls[1], GlCall::BufferData { target: gl::ARRAY_BUFFER, size: 0, usage: gl::STREAM_DRAW });
}

#[test]
fn ebo_from_indices_uploads_static_indices() {
    let (ebo, calls) = Ebo::from_indices(9, &[0, 1, 2, 2, 3, 0]);
    assert_eq!(
        calls,
        vec![
            GlCall::BindBuffer { target: gl::ELEMENT_ARRAY_BUFFER, name: 9 },
            GlCall::BufferData { target: gl::ELEMENT_ARRAY_BUFFER, size: 24, usage: gl::STATIC_DRAW },
        ]
    );
    assert_eq!(ebo.bind(), GlCall::BindBuffer { target: gl::ELEMENT_ARRAY_BUFFER, name: 9 });
    assert_eq!(ebo.release(), GlCall::DeleteBuffer { name: 9 });
}

#[test]
fn release_deletes_exactly_the_owned_name() {
    assert_eq!(Vbo::new(4).release(), GlCall::DeleteBuffer { name: 4 });
    let shader = Shader::from_name(5, ShaderType::VertexShader);
    assert_eq!(shader.release(), GlCall::DeleteShader { shader: 5 });
    let program = Program::from_link(6, glconst::GL_TRUE, String::new()).unwrap();
    assert_eq!(program.release(), GlCall::DeleteProgram { program: 6 });
}

#[test]
fn info_log_only_on_failure() {
    assert_eq!(get_info_log(glconst::GL_TRUE, "ignored".to_string()), None);
    assert_eq!(get_info_log(glconst::GL_FALSE, "0:1: error".to_string()), Some("0:1: error".to_string()));
    assert_eq!(get_info_log(glconst::GL_FALSE, String::new()), Some(String::new()));
}

#[test]
fn compile_success_gives_a_handle() {
    let shader = Shader::compile(12, ShaderType::FragmentShader, glconst::GL_TRUE, String::new()).unwrap();
    assert_eq!(shader.name(), 12);
    assert_eq!(shader.shader_type(), ShaderType::FragmentShader);
}

#[test]
fn compile_failure_carries_the_log() {
    let log = "ERROR: 0:3: 'vec5' : syntax error".to_string();
    for kind in [ShaderType::VertexShader, ShaderType::FragmentShader] {
        match Shader::compile(2, kind, glconst::GL_FALSE, log.clone()) {
            Ok(_) => panic!("a failed compile gave a shader"),
            Err(e) => {
                assert_eq!(e, log);
                assert!(!e.is_empty());
            }
        }
    }
}

#[test]
fn compile_with_zero_name_fails() {
    let r = Shader::compile(0, ShaderType::VertexShader, glconst::GL_TRUE, String::new());
    assert_eq!(r.err(), Some(String::new()));
}

#[test]
fn link_returns_the_first_failure() {
    let vertex = Shader::from_name(1, ShaderType::VertexShader);
    let shaders = vec![
        Ok(&vertex),
        Err("first".to_string()),
        Err("second".to_string()),
    ];
    assert_eq!(Program::link(&shaders), Err("first".to_string()));
}

#[test]
fn link_collects_names_in_order() {
    let vertex = Shader::from_name(4, ShaderType::VertexShader);
    let fragment = Shader::from_name(8, ShaderType::FragmentShader);
    let shaders = vec![Ok(&vertex), Ok(&fragment)];
    assert_eq!(Program::link(&shaders), Ok(vec![4, 8]));
    assert_eq!(Program::link(&[]), Ok(vec![]));
}

#[test]
fn attach_and_link_order() {
    assert_eq!(
        Program::attach_and_link(3, &[4, 8]),
        vec![
            GlCall::AttachShader { program: 3, shader: 4 },
            GlCall::AttachShader { program: 3, shader: 8 },
            GlCall::LinkProgram { program: 3 },
        ]
    );
    assert_eq!(Program::attach_and_link(3, &[]), vec![GlCall::LinkProgram { program: 3 }]);
}

#[test]
fn link_status_decides_the_program() {
    let p = Program::from_link(10, glconst::GL_TRUE, String::new()).unwrap();
    assert_eq!(p.get_name(), 10);
    assert_eq!(p.bind(), GlCall::UseProgram { program: 10 });
    let e = Program::from_link(10, glconst::GL_FALSE, "undefined main".to_string()).err();
    assert_eq!(e, Some("undefined main".to_string()));
    assert!(Program::from_link(0, glconst::GL_TRUE, String::new()).is_err());
}
