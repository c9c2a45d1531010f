use gfx::gl_enums;
use gfx::gl_error::get_gl_error_string;
use gfx::gl_types::size_of_gl_type;

#[test]
fn enum_values_match_the_driver_bindings() {
    assert_eq!(gl_enums::NO_ERROR, gl::NO_ERROR);
    assert_eq!(gl_enums::INVALID_ENUM, gl::INVALID_ENUM);
    assert_eq!(gl_enums::INVALID_VALUE, gl::INVALID_VALUE);
    assert_eq!(gl_enums::INVALID_OPERATION, gl::INVALID_OPERATION);
    assert_eq!(gl_enums::STACK_OVERFLOW, gl::STACK_OVERFLOW);
    assert_eq!(gl_enums::STACK_UNDERFLOW, gl::STACK_UNDERFLOW);
    assert_eq!(gl_enums::OUT_OF_MEMORY, gl::OUT_OF_MEMORY);
    assert_eq!(gl_enums::INVALID_FRAMEBUFFER_OPERATION, gl::INVALID_FRAMEBUFFER_OPERATION);
    assert_eq!(gl_enums::BYTE, gl::BYTE);
    assert_eq!(gl_enums::UNSIGNED_BYTE, gl::UNSIGNED_BYTE);
    assert_eq!(gl_enums::SHORT, gl::SHORT);
    assert_eq!(gl_enums::INT, gl::INT);
    assert_eq!(gl_enums::UNSIGNED_INT, gl::UNSIGNED_INT);
    assert_eq!(gl_enums::FLOAT, gl::FLOAT);
    assert_eq!(gl_enums::BOOL, gl::BOOL);
    assert_eq!(gl_enums::FALSE, gl::FALSE);
    assert_eq!(gl_enums::TRUE, gl::TRUE);
    assert_eq!(gl_enums::TEXTURE_2D, gl::TEXTURE_2D);
    assert_eq!(gl_enums::TEXTURE0, gl::TEXTURE0);
    assert_eq!(gl_enums::RGB, gl::RGB);
    assert_eq!(gl_enums::RGBA, gl::RGBA);
    assert_eq!(gl_enums::CLAMP_TO_BORDER, gl::CLAMP_TO_BORDER);
    assert_eq!(gl_enums::NEAREST, gl::NEAREST);
    assert_eq!(gl_enums::NEAREST_MIPMAP_LINEAR, gl::NEAREST_MIPMAP_LINEAR);
    assert_eq!(gl_enums::TEXTURE_MAG_FILTER, gl::TEXTURE_MAG_FILTER);
    assert_eq!(gl_enums::TEXTURE_MIN_FILTER, gl::TEXTURE_MIN_FILTER);
    assert_eq!(gl_enums::TEXTURE_WRAP_S, gl::TEXTURE_WRAP_S);
    assert_eq!(gl_enums::TEXTURE_WRAP_T, gl::TEXTURE_WRAP_T);
    assert_eq!(gl_enums::DEPTH_TEST, gl::DEPTH_TEST);
    assert_eq!(gl_enums::BLEND, gl::BLEND);
    assert_eq!(gl_enums::CULL_FACE, gl::CULL_FACE);
    assert_eq!(gl_enums::FRONT_AND_BACK, gl::FRONT_AND_BACK);
    assert_eq!(gl_enums::FILL, gl::FILL);
}

#[test]
fn no_error_has_no_message() {
    assert_eq!(get_gl_error_string(0), None);
}

#[test]
fn each_error_code_has_its_message() {
    assert_eq!(get_gl_error_string(gl::INVALID_ENUM), Some("GlError: INVALID ENUM"));
    assert_eq!(get_gl_error_string(gl::INVALID_VALUE), Some("GlError: INVALID VALUE"));
    assert_eq!(get_gl_error_string(gl::INVALID_OPERATION), Some("GlError: INVALID OPERATION"));
    assert_eq!(get_gl_error_string(gl::STACK_OVERFLOW), Some("GlError: STACK OVERFLOW"));
    assert_eq!(get_gl_error_string(gl::STACK_UNDERFLOW), Some("GlError: STACK UNDERFLOW"));
    assert_eq!(get_gl_error_string(gl::OUT_OF_MEMORY), Some("GlError: OUT OF MEMORY"));
    assert_eq!(
        get_gl_error_string(gl::INVALID_FRAMEBUFFER_OPERATION),
        Some("GlError: INVALID FRAMEBUFFER OPERATION")
    );
}

#[test]
fn unknown_error_code_is_reported_as_unknown() {
    assert_eq!(get_gl_error_string(0x1234), Some("GlError: Unknown glError"));
    assert_eq!(get_gl_error_string(u32::MAX), Some("GlError: Unknown glError"));
}

#[test]
fn scalar_type_sizes() {
    assert_eq!(size_of_gl_type(gl::FLOAT), Some(std::mem::size_of::<gl::types::GLfloat>()));
    assert_eq!(size_of_gl_type(gl::INT), Some(std::mem::size_of::<gl::types::GLint>()));
    assert_eq!(size_of_gl_type(gl::UNSIGNED_INT), Some(std::mem::size_of::<gl::types::GLuint>()));
    assert_eq!(size_of_gl_type(gl::BYTE), Some(std::mem::size_of::<gl::types::GLbyte>()));
    assert_eq!(size_of_gl_type(gl::UNSIGNED_BYTE), Some(std::mem::size_of::<gl::types::GLubyte>()));
    assert_eq!(size_of_gl_type(gl::SHORT), Some(std::mem::size_of::<gl::types::GLshort>()));
    assert_eq!(size_of_gl_type(gl::BOOL), Some(std::mem::size_of::<gl::types::GLboolean>()));
    assert_eq!(size_of_gl_type(gl::FLOAT), Some(4));
    assert_eq!(size_of_gl_type(gl::SHORT), Some(2));
}

#[test]
fn unknown_scalar_type_has_no_size() {
    assert_eq!(size_of_gl_type(gl::DOUBLE), None);
    assert_eq!(size_of_gl_type(0), None);
}
