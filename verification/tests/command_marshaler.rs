use opengles::capability::{CapabilityTable, Platform};
use opengles::error::GlError;
use opengles::gl2::{bind_attrib_location, bind_vertex_array, buffer_data, buffer_sub_data,
    check_error, draw_arrays_instanced, draw_elements, draw_elements_instanced, gen_buffers,
    gen_framebuffers, gen_textures, gen_vertex_arrays, generated_names, get_attrib_location,
    get_program_info_log, get_shader_info_log, get_string, get_uniform_location,
    info_log_staging, name_count, null_terminated, shader_source, tex_image_2d,
    tex_sub_image_2d, texture_range, uniform_matrix_4fv, vertex_attrib_divisor, vertex_attrib_pointer_f32, vertex_attrib_pointer_i32,
    vertex_attrib_pointer_i8, vertex_attrib_pointer_u8, BufferData, BufferSubData,
    DrawArraysInstanced, DrawElements, DrawElementsInstanced, TexImage2d, TexSubImage2d,
    TextureRange, UniformMatrix4fv, VertexAttribDivisor, VertexAttribPointer, INFO_LOG_CAPACITY};
use opengles::tokens::{ARRAY_BUFFER, BYTE, ELEMENT_ARRAY_BUFFER, FLOAT, INT, INVALID_ENUM,
    INVALID_VALUE, NO_ERROR, OUT_OF_MEMORY, RGBA, STATIC_DRAW, TEXTURE_2D,
    TEXTURE_RECTANGLE_ARB, TRIANGLES, UNSIGNED_BYTE, UNSIGNED_SHORT};
use opengles::types::{destroy, gl_boolean, gl_true};

fn everything_but_texture_range() -> CapabilityTable {
    CapabilityTable::probe(Platform { macos: false, mac_10_6: false, mac_10_7: false })
}

fn macos_10_6() -> CapabilityTable {
    CapabilityTable::probe(Platform { macos: true, mac_10_6: true, mac_10_7: false })
}

fn macos_10_7() -> CapabilityTable {
    CapabilityTable::probe(Platform { macos: true, mac_10_6: false, mac_10_7: true })
}

#[test]
fn buffer_data_length_is_count_times_element_size() {
    let data: [u32; 3] = [1, 2, 3];
    assert_eq!(
        buffer_data(ARRAY_BUFFER, &data, STATIC_DRAW),
        BufferData { target: ARRAY_BUFFER, size: 12, usage: STATIC_DRAW }
    );
    let bytes: [u8; 5] = [0; 5];
    assert_eq!(buffer_data(ARRAY_BUFFER, &bytes, STATIC_DRAW).size, 5);
    let wide: [u64; 7] = [0; 7];
    assert_eq!(buffer_data(ARRAY_BUFFER, &wide, STATIC_DRAW).size, 56);
    let vertices: [[u16; 3]; 4] = [[0; 3]; 4];
    assert_eq!(buffer_data(ELEMENT_ARRAY_BUFFER, &vertices, STATIC_DRAW).size, 24);
}

#[test]
fn buffer_data_of_nothing_has_length_zero() {
    let none: [u32; 0] = [];
    assert_eq!(
        buffer_data(ARRAY_BUFFER, &none, STATIC_DRAW),
        BufferData { target: ARRAY_BUFFER, size: 0, usage: STATIC_DRAW }
    );
}

#[test]
fn buffer_data_of_zero_sized_elements_has_length_zero() {
    let units: [(); 9] = [(); 9];
    assert_eq!(buffer_data(ARRAY_BUFFER, &units, STATIC_DRAW).size, 0);
}

#[test]
fn buffer_sub_data_offset_is_index_times_element_size() {
    let data: [u32; 2] = [7, 8];
    assert_eq!(
        buffer_sub_data(ARRAY_BUFFER, 5, &data),
        BufferSubData { target: ARRAY_BUFFER, offset: 20, size: 8 }
    );
    let shorts: [u16; 3] = [1, 2, 3];
    assert_eq!(
        buffer_sub_data(ELEMENT_ARRAY_BUFFER, 7, &shorts),
        BufferSubData { target: ELEMENT_ARRAY_BUFFER, offset: 14, size: 6 }
    );
}

#[test]
fn buffer_sub_data_at_the_start_has_offset_zero() {
    let data: [u64; 1] = [1];
    assert_eq!(
        buffer_sub_data(ARRAY_BUFFER, 0, &data),
        BufferSubData { target: ARRAY_BUFFER, offset: 0, size: 8 }
    );
    let none: [u64; 0] = [];
    assert_eq!(
        buffer_sub_data(ARRAY_BUFFER, 3, &none),
        BufferSubData { target: ARRAY_BUFFER, offset: 24, size: 0 }
    );
}

#[test]
fn draw_elements_clamps_an_over_request_to_the_view() {
    let indices: [u8; 4] = [0, 1, 2, 3];
    assert_eq!(
        draw_elements(TRIANGLES, 6, UNSIGNED_BYTE, Some(&indices)),
        DrawElements { mode: TRIANGLES, count: 4, element_type: UNSIGNED_BYTE, client_indices: true }
    );
    assert_eq!(draw_elements(TRIANGLES, 5, UNSIGNED_BYTE, Some(&indices)).count, 4);
    assert_eq!(draw_elements(TRIANGLES, i32::MAX, UNSIGNED_BYTE, Some(&indices)).count, 4);
}

#[test]
fn draw_elements_keeps_a_request_that_the_view_covers() {
    let indices: [u8; 6] = [0, 1, 2, 2, 1, 3];
    assert_eq!(draw_elements(TRIANGLES, 6, UNSIGNED_BYTE, Some(&indices)).count, 6);
    assert_eq!(draw_elements(TRIANGLES, 3, UNSIGNED_BYTE, Some(&indices)).count, 3);
    assert_eq!(draw_elements(TRIANGLES, 0, UNSIGNED_BYTE, Some(&indices)).count, 0);
}

#[test]
fn draw_elements_counts_the_view_in_bytes() {
    let indices: [u8; 4] = [0, 0, 1, 0];
    assert_eq!(draw_elements(TRIANGLES, 6, UNSIGNED_SHORT, Some(&indices)).count, 4);
}

#[test]
fn draw_elements_against_an_empty_view_submits_nothing() {
    let indices: [u8; 0] = [];
    assert_eq!(draw_elements(TRIANGLES, 3, UNSIGNED_BYTE, Some(&indices)).count, 0);
}

#[test]
fn draw_elements_passes_a_negative_count_on() {
    let indices: [u8; 2] = [0, 1];
    assert_eq!(draw_elements(TRIANGLES, -1, UNSIGNED_BYTE, Some(&indices)).count, -1);
    assert_eq!(draw_elements(TRIANGLES, -1, UNSIGNED_BYTE, None).count, -1);
}

#[test]
fn draw_elements_without_a_view_submits_what_is_asked() {
    assert_eq!(
        draw_elements(TRIANGLES, 600, UNSIGNED_SHORT, None),
        DrawElements {
            mode: TRIANGLES,
            count: 600,
            element_type: UNSIGNED_SHORT,
            client_indices: false
        }
    );
}

#[test]
fn draw_elements_instanced_clamps_as_draw_elements_does() {
    let caps = everything_but_texture_range();
    let indices: [u8; 3] = [0, 1, 2];
    assert_eq!(
        draw_elements_instanced(&caps, TRIANGLES, 9, UNSIGNED_BYTE, Some(&indices), 10),
        Ok(DrawElementsInstanced {
            mode: TRIANGLES,
            count: 3,
            element_type: UNSIGNED_BYTE,
            client_indices: true,
            primcount: 10
        })
    );
    assert_eq!(
        draw_elements_instanced(&caps, TRIANGLES, 9, UNSIGNED_BYTE, None, 2),
        Ok(DrawElementsInstanced {
            mode: TRIANGLES,
            count: 9,
            element_type: UNSIGNED_BYTE,
            client_indices: false,
            primcount: 2
        })
    );
}

#[test]
fn instanced_draws_are_unsupported_without_the_capability() {
    let caps = macos_10_6();
    let indices: [u8; 3] = [0, 1, 2];
    assert_eq!(
        draw_elements_instanced(&caps, TRIANGLES, 3, UNSIGNED_BYTE, Some(&indices), 10),
        Err(GlError::UnsupportedOperation)
    );
    assert_eq!(
        draw_arrays_instanced(&caps, TRIANGLES, 0, 3, 10),
        Err(GlError::UnsupportedOperation)
    );
}

#[test]
fn draw_arrays_instanced_passes_its_arguments_on() {
    let caps = macos_10_7();
    assert_eq!(
        draw_arrays_instanced(&caps, TRIANGLES, 2, 30, 4),
        Ok(DrawArraysInstanced { mode: TRIANGLES, first: 2, count: 30, primcount: 4 })
    );
}

#[test]
fn vertex_array_commands_are_unsupported_without_the_capability() {
    let caps = macos_10_6();
    assert_eq!(bind_vertex_array(&caps, 7), Err(GlError::UnsupportedOperation));
    assert_eq!(gen_vertex_arrays(&caps, 2), Err(GlError::UnsupportedOperation));
    assert_eq!(gen_vertex_arrays(&caps, -1), Err(GlError::UnsupportedOperation));
}

#[test]
fn vertex_array_commands_go_through_with_the_capability() {
    let caps = everything_but_texture_range();
    assert_eq!(bind_vertex_array(&caps, 7), Ok(7));
    assert_eq!(bind_vertex_array(&caps, 0), Ok(0));
    assert_eq!(gen_vertex_arrays(&caps, 2), Ok(vec![0, 0]));
    assert_eq!(gen_vertex_arrays(&caps, 0), Ok(vec![]));
}

#[test]
fn vertex_attrib_divisor_is_gated_by_instanced_arrays() {
    assert_eq!(vertex_attrib_divisor(&macos_10_7(), 1, 1), Err(GlError::UnsupportedOperation));
    assert_eq!(vertex_attrib_divisor(&macos_10_6(), 1, 1), Err(GlError::UnsupportedOperation));
    assert_eq!(
        vertex_attrib_divisor(&everything_but_texture_range(), 3, 2),
        Ok(VertexAttribDivisor { index: 3, divisor: 2 })
    );
}

#[test]
fn texture_range_is_gated_by_the_vendor_extension() {
    let buffer: [u8; 64] = [0; 64];
    assert_eq!(
        texture_range(&everything_but_texture_range(), TEXTURE_RECTANGLE_ARB, &buffer),
        Err(GlError::UnsupportedOperation)
    );
    assert_eq!(
        texture_range(&macos_10_6(), TEXTURE_RECTANGLE_ARB, &buffer),
        Ok(TextureRange { target: TEXTURE_RECTANGLE_ARB, length: 64 })
    );
    assert_eq!(
        texture_range(&macos_10_7(), TEXTURE_RECTANGLE_ARB, &[]),
        Ok(TextureRange { target: TEXTURE_RECTANGLE_ARB, length: 0 })
    );
}

#[test]
fn name_staging_has_exactly_the_requested_count() {
    assert_eq!(gen_buffers(3), vec![0, 0, 0]);
    assert_eq!(gen_framebuffers(1), vec![0]);
    assert_eq!(gen_textures(5), vec![0, 0, 0, 0, 0]);
    assert_eq!(gen_buffers(0), Vec::<u32>::new());
    assert_eq!(gen_textures(1000).len(), 1000);
}

#[test]
fn generated_names_are_returned_whole() {
    assert_eq!(generated_names(vec![4, 5, 6], NO_ERROR), Ok(vec![4, 5, 6]));
    assert_eq!(generated_names(vec![], NO_ERROR), Ok(vec![]));
}

#[test]
fn failed_generation_returns_no_names() {
    assert_eq!(
        generated_names(vec![4, 0, 0], OUT_OF_MEMORY),
        Err(GlError::DriverError(OUT_OF_MEMORY))
    );
    assert_eq!(
        generated_names(vec![0, 0], INVALID_VALUE),
        Err(GlError::DriverError(0x0501))
    );
}

#[test]
fn error_flag_is_passed_on_as_it_is() {
    assert_eq!(check_error(NO_ERROR), Ok(()));
    assert_eq!(check_error(INVALID_ENUM), Err(GlError::DriverError(0x0500)));
    assert_eq!(check_error(0xdead), Err(GlError::DriverError(0xdead)));
}

#[test]
fn name_count_is_the_number_of_names() {
    assert_eq!(name_count(&[9, 8, 7, 6]), 4);
    assert_eq!(name_count(&[]), 0);
}

#[test]
fn info_log_staging_is_all_zero() {
    let staging = info_log_staging();
    assert_eq!(INFO_LOG_CAPACITY, 1024);
    assert_eq!(staging.len(), 1024);
    assert!(staging.iter().all(|b| *b == 0));
}

fn staging_with(text: &[u8]) -> Vec<u8> {
    let mut staging = info_log_staging();
    staging[..text.len()].copy_from_slice(text);
    staging
}

fn text(s: &str) -> Option<String> {
    Some(String::from(s))
}

#[test]
fn info_log_of_length_zero_is_empty() {
    assert_eq!(get_program_info_log(info_log_staging(), 0), text(""));
    assert_eq!(get_shader_info_log(info_log_staging(), 0), text(""));
}

#[test]
fn info_log_of_length_zero_ignores_stale_bytes() {
    let stale = staging_with(b"left over from before");
    assert_eq!(get_program_info_log(stale.clone(), 0), text(""));
    assert_eq!(get_shader_info_log(stale, 0), text(""));
    assert_eq!(get_shader_info_log(vec![0xff; 1024], 0), text(""));
}

#[test]
fn info_log_of_negative_length_is_empty() {
    assert_eq!(get_program_info_log(staging_with(b"abc"), -4), text(""));
    assert_eq!(get_shader_info_log(staging_with(b"abc"), i32::MIN), text(""));
}

#[test]
fn info_log_drops_the_closing_zero_byte() {
    let staging = staging_with(b"error: 0:1\0");
    assert_eq!(get_program_info_log(staging.clone(), 11), text("error: 0:1"));
    assert_eq!(get_shader_info_log(staging, 11), text("error: 0:1"));
}

#[test]
fn info_log_has_one_byte_less_than_reported() {
    let staging = staging_with(b"abcdefgh");
    for reported in 1..=9 {
        let log = get_shader_info_log(staging.clone(), reported).unwrap();
        assert_eq!(log.len() as i32, reported - 1);
        assert_eq!(log, "abcdefgh"[..(reported - 1) as usize]);
    }
    assert_eq!(get_program_info_log(staging, 1), text(""));
}

#[test]
fn info_log_that_fills_the_region() {
    let staging = vec![b'x'; 1024];
    assert_eq!(get_program_info_log(staging.clone(), 1024).unwrap().len(), 1023);
    assert_eq!(get_program_info_log(staging, 1025).unwrap().len(), 1024);
}

#[test]
fn info_log_never_exceeds_the_region() {
    let staging = vec![b'x'; 1024];
    let whole = String::from_utf8(staging.clone()).ok();
    assert_eq!(get_program_info_log(staging.clone(), 5000), whole);
    assert_eq!(get_shader_info_log(staging, i32::MAX), whole);
    assert_eq!(get_shader_info_log(vec![b'a', b'b', b'c'], 10), text("abc"));
}

#[test]
fn info_log_keeps_text_beyond_ascii() {
    let staging = staging_with("gr\u{fc}n\0".as_bytes());
    assert_eq!(get_program_info_log(staging.clone(), 6), text("gr\u{fc}n"));
    assert_eq!(get_program_info_log(staging, 6).unwrap().len(), 5);
}

#[test]
fn info_log_that_is_not_text_is_refused() {
    assert_eq!(get_program_info_log(staging_with(&[b'a', 0xff, b'b', 0]), 4), None);
    assert_eq!(get_shader_info_log(staging_with(&[0xc3, 0]), 2), None);
    assert_eq!(get_shader_info_log(staging_with(&[0xed, 0xa0, 0x80, 0]), 4), None);
    assert_eq!(get_shader_info_log(staging_with(&[0xc0, 0x80, 0]), 3), None);
}

#[test]
fn info_log_cut_inside_a_character_is_refused() {
    let staging = staging_with("\u{fc}".as_bytes());
    assert_eq!(get_program_info_log(staging.clone(), 2), None);
    assert_eq!(get_program_info_log(staging, 3), text("\u{fc}"));
}

#[test]
fn driver_string_is_its_text_or_empty() {
    assert_eq!(get_string(Some(b"4.1 Metal".to_vec())), text("4.1 Metal"));
    assert_eq!(get_string(Some(vec![])), text(""));
    assert_eq!(get_string(None), text(""));
    assert_eq!(get_string(Some(vec![0x80])), None);
}

#[test]
fn names_are_zero_terminated() {
    assert_eq!(null_terminated("position"), b"position\0".to_vec());
    assert_eq!(null_terminated(""), vec![0]);
    assert_eq!(null_terminated("\u{e9}"), vec![0xc3, 0xa9, 0]);
}

#[test]
fn name_commands_carry_the_terminated_name() {
    let bind = bind_attrib_location(3, 1, "a_color");
    assert_eq!(bind.program, 3);
    assert_eq!(bind.index, 1);
    assert_eq!(bind.name, b"a_color\0".to_vec());
    let attrib = get_attrib_location(4, "a_position");
    assert_eq!(attrib.program, 4);
    assert_eq!(attrib.name, b"a_position\0".to_vec());
    let uniform = get_uniform_location(5, "u_matrix");
    assert_eq!(uniform.program, 5);
    assert_eq!(uniform.name, b"u_matrix\0".to_vec());
}

#[test]
fn shader_source_terminates_counts_and_measures_each_string() {
    let strings: Vec<Vec<u8>> =
        vec![b"#version 100\n".to_vec(), b"void main() {}".to_vec(), vec![]];
    let call = shader_source(9, &strings);
    assert_eq!(call.shader, 9);
    assert_eq!(call.count, 3);
    assert_eq!(
        call.strings,
        vec![b"#version 100\n\0".to_vec(), b"void main() {}\0".to_vec(), vec![0]]
    );
    assert_eq!(call.lengths, vec![13, 14, 0]);
}

#[test]
fn shader_source_leaves_the_given_strings_alone() {
    let strings: Vec<Vec<u8>> = vec![b"a".to_vec(), vec![0, 1]];
    let call = shader_source(1, &strings);
    assert_eq!(strings, vec![b"a".to_vec(), vec![0, 1]]);
    assert_eq!(call.strings, vec![vec![b'a', 0], vec![0, 1, 0]]);
    assert_eq!(call.lengths, vec![1, 2]);
}

#[test]
fn shader_source_of_nothing() {
    let call = shader_source(9, &[]);
    assert_eq!(call.count, 0);
    assert_eq!(call.strings, Vec::<Vec<u8>>::new());
    assert_eq!(call.lengths, Vec::<i32>::new());
}

#[test]
fn vertex_attrib_pointer_names_the_component_type() {
    assert_eq!(
        vertex_attrib_pointer_f32(1, 3, false, 12, 0),
        VertexAttribPointer { index: 1, size: 3, ty: FLOAT, normalized: 0, stride: 12, offset: 0 }
    );
    assert_eq!(
        vertex_attrib_pointer_i8(2, 4, true, 4, 16),
        VertexAttribPointer { index: 2, size: 4, ty: BYTE, normalized: 1, stride: 4, offset: 16 }
    );
    assert_eq!(
        vertex_attrib_pointer_i32(0, 2, false, 0, 8),
        VertexAttribPointer { index: 0, size: 2, ty: INT, normalized: 0, stride: 0, offset: 8 }
    );
    assert_eq!(
        vertex_attrib_pointer_u8(5, 4, true, 4, u32::MAX),
        VertexAttribPointer {
            index: 5,
            size: 4,
            ty: UNSIGNED_BYTE,
            normalized: 1,
            stride: 4,
            offset: 0xffff_ffff
        }
    );
    assert_eq!(vertex_attrib_pointer_f32(1, 3, false, 12, 0).ty, 0x1406);
    assert_eq!(vertex_attrib_pointer_i8(1, 3, false, 12, 0).ty, 0x1400);
    assert_eq!(vertex_attrib_pointer_i32(1, 3, false, 12, 0).ty, 0x1404);
    assert_eq!(vertex_attrib_pointer_u8(1, 3, false, 12, 0).ty, 0x1401);
}

#[test]
fn driver_booleans() {
    assert_eq!(gl_boolean(true), 1);
    assert_eq!(gl_boolean(false), 0);
    assert!(gl_true(1));
    assert!(gl_true(255));
    assert!(!gl_true(0));
}

#[test]
fn destroy_takes_any_value() {
    destroy(vec![1, 2, 3]);
    destroy(String::from("gone"));
    destroy(7u8);
    destroy(());
}

#[test]
fn texture_image_with_pixels() {
    let pixels: [u8; 16] = [255; 16];
    assert_eq!(
        tex_image_2d(TEXTURE_2D, 0, RGBA as i32, 2, 2, 0, RGBA, UNSIGNED_BYTE, Some(&pixels)),
        TexImage2d {
            target: TEXTURE_2D,
            level: 0,
            internal_format: 0x1908,
            width: 2,
            height: 2,
            border: 0,
            format: RGBA,
            ty: UNSIGNED_BYTE,
            client_pixels: true
        }
    );
}

#[test]
fn texture_image_without_pixels() {
    let call = tex_image_2d(TEXTURE_2D, 1, RGBA as i32, 64, 32, 0, RGBA, UNSIGNED_BYTE, None);
    assert!(!call.client_pixels);
    assert_eq!(call.level, 1);
    assert_eq!(call.width, 64);
    assert_eq!(call.height, 32);
}

#[test]
fn texture_image_with_an_empty_view_still_has_pixels() {
    let call = tex_image_2d(TEXTURE_2D, 0, RGBA as i32, 0, 0, 0, RGBA, UNSIGNED_BYTE, Some(&[]));
    assert!(call.client_pixels);
}

#[test]
fn texture_part_with_and_without_pixels() {
    let pixels: [u8; 4] = [1, 2, 3, 4];
    assert_eq!(
        tex_sub_image_2d(TEXTURE_2D, 0, 3, 5, 1, 1, RGBA, UNSIGNED_BYTE, Some(&pixels)),
        TexSubImage2d {
            target: TEXTURE_2D,
            level: 0,
            xoffset: 3,
            yoffset: 5,
            width: 1,
            height: 1,
            format: RGBA,
            ty: UNSIGNED_BYTE,
            client_pixels: true
        }
    );
    assert!(!tex_sub_image_2d(TEXTURE_2D, 0, 3, 5, 1, 1, RGBA, UNSIGNED_BYTE, None).client_pixels);
}

#[test]
fn matrix_uniform_is_one_matrix() {
    let identity: [f32; 16] =
        [1.0, 0.0, 0.0, 0.0, 0.0, 1.0, 0.0, 0.0, 0.0, 0.0, 1.0, 0.0, 0.0, 0.0, 0.0, 1.0];
    assert_eq!(
        uniform_matrix_4fv(4, false, &identity),
        UniformMatrix4fv { location: 4, count: 1, transpose: 0 }
    );
    assert_eq!(
        uniform_matrix_4fv(-1, true, &identity),
        UniformMatrix4fv { location: -1, count: 1, transpose: 1 }
    );
}
