use gfx::gl_enums::{BLEND, CULL_FACE, DEPTH_TEST, FILL, FRONT_AND_BACK};
use gfx::pipeline_states::{PipelineStates, StateCommand};
use gfx::shader::Shader;

#[test]
fn default_states_disable_everything() {
    let states = PipelineStates::default();
    assert_eq!(states.depth_test, None);
    assert_eq!(states.blend, None);
    assert_eq!(states.cull_face, None);
    assert_eq!(states.polygon_mode, FILL);
    assert_eq!(
        states.commands(),
        vec![
            StateCommand::Disable(DEPTH_TEST),
            StateCommand::Disable(BLEND),
            StateCommand::Disable(CULL_FACE),
            StateCommand::PolygonMode(FRONT_AND_BACK, FILL),
        ]
    );
}

#[test]
fn enabled_states_carry_their_parameters() {
    let states = PipelineStates {
        depth_test: Some(gl::LESS),
        blend: Some((gl::SRC_ALPHA, gl::ONE_MINUS_SRC_ALPHA)),
        cull_face: Some((gl::BACK, gl::CCW)),
        polygon_mode: gl::LINE,
    };
    assert_eq!(
        states.commands(),
        vec![
            StateCommand::Enable(DEPTH_TEST),
            StateCommand::DepthFunc(gl::LESS),
            StateCommand::Enable(BLEND),
            StateCommand::BlendFunc(gl::SRC_ALPHA, gl::ONE_MINUS_SRC_ALPHA),
            StateCommand::Enable(CULL_FACE),
            StateCommand::CullFace(gl::BACK),
            StateCommand::FrontFace(gl::CCW),
            StateCommand::PolygonMode(FRONT_AND_BACK, gl::LINE),
        ]
    );
}

#[test]
fn only_blending_enabled() {
    let states = PipelineStates { blend: Some((1, 2)), ..PipelineStates::default() };
    assert_eq!(
        states.commands(),
        vec![
            StateCommand::Disable(DEPTH_TEST),
            StateCommand::Enable(BLEND),
            StateCommand::BlendFunc(1, 2),
            StateCommand::Disable(CULL_FACE),
            StateCommand::PolygonMode(FRONT_AND_BACK, FILL),
        ]
    );
}

#[test]
fn fresh_shader_knows_no_uniform() {
    let shader = Shader::from_id(7);
    assert_eq!(shader.id(), 7);
    assert_eq!(shader.cached_uniform_location("model"), None);
}

#[test]
fn remembered_uniforms_are_found_by_name() {
    let mut shader = Shader::from_id(3);
    shader.remember_uniform_location("view", 1);
    shader.remember_uniform_location("proj", 2);
    shader.remember_uniform_location("missing", -1);
    assert_eq!(shader.cached_uniform_location("view"), Some(1));
    assert_eq!(shader.cached_uniform_location("proj"), Some(2));
    assert_eq!(shader.cached_uniform_location("missing"), Some(-1));
    assert_eq!(shader.cached_uniform_location("model"), None);
    assert_eq!(shader.cached_uniform_location("vie"), None);
    assert_eq!(shader.id(), 3);
}

#[test]
fn first_recorded_location_wins() {
    let mut shader = Shader::from_id(1);
    shader.remember_uniform_location("color", 4);
    shader.remember_uniform_location("color", 9);
    assert_eq!(shader.cached_uniform_location("color"), Some(4));
}
