use touchhle::gles::gles1_on_gl2::{
    arrays, decode_paletted_texture, fixed_point_layout, gather_fixed_point, index_range,
    is_blend_factor, is_draw_mode, GLES1OnGL2Context,
    GLES1OnGL2State, ARRAY_COUNT, COLOR, GL_COLOR_ARRAY, GL_FIXED, GL_FLOAT, GL_NORMAL_ARRAY,
    GL_SHORT, GL_TEXTURE_COORD_ARRAY, GL_TRIANGLES, GL_UNSIGNED_BYTE, GL_VERTEX_ARRAY, NORMAL,
    TEXTURE_COORD, VERTEX,
};
use touchhle::gles::gles1_params::{
    copy_tex_image_accepts, disable_accepts, is_enabled_accepts, query_accepts, query_params,
    QueryKind, GL_ACTIVE_TEXTURE, GL_ALIASED_POINT_SIZE_RANGE, GL_COLOR_WRITEMASK,
    GL_COMPRESSED_TEXTURE_FORMATS, GL_CURRENT_COLOR, is_array_pointer, tex_env_get_accepts, tex_image_accepts, tex_sub_image_accepts, GL_ALPHA, GL_BGRA,
    GL_LUMINANCE, GL_LUMINANCE_ALPHA,
    client_state_accepts, cull_face_accepts, enable_accepts, hint_accepts, is_capability,
    is_comparison_func, is_stencil_op, material_call, tex_parameter_accepts, MaterialCall,
    GL_ALWAYS, GL_BACK, GL_BLEND, GL_CCW, GL_DEPTH_TEST, GL_FASTEST, GL_FOG_HINT, GL_FRONT,
    GL_FRONT_AND_BACK, GL_GENERATE_MIPMAP_HINT, GL_INVERT, GL_KEEP, GL_LIGHT7, GL_NEVER, GL_NICEST,
    GL_PERSPECTIVE_CORRECTION_HINT, GL_TEXTURE, GL_TEXTURE_MAX_LEVEL,
    fog_params, is_blend_equation, is_logic_op, light_model_params, light_params, material_params,
    point_params, tex_env_accepts, tex_env_params, tex_params, GL_AMBIENT_AND_DIFFUSE,
    GL_COMBINE_RGB, GL_COORD_REPLACE, GL_FOG_COLOR, GL_FOG_DENSITY, GL_FOG_MODE,
    GL_GENERATE_MIPMAP, GL_LIGHT_MODEL_TWO_SIDE, GL_POINT_DISTANCE_ATTENUATION, GL_POINT_SPRITE,
    GL_SPOT_DIRECTION, GL_TEXTURE_2D, GL_TEXTURE_ENV, GL_TEXTURE_ENV_COLOR, GL_TEXTURE_ENV_MODE,
    GL_TEXTURE_FILTER_CONTROL_EXT, GL_TEXTURE_LOD_BIAS_EXT,
};
use touchhle::gles::present::FpsCounter;
use touchhle::gles::util::{
    get_params, PalettedTextureFormat, ParamSetting, ParamSettingV, ParamTable, ParamType,
    GL_MAX_TEXTURE_SIZE, GL_PALETTE4_RGB8_OES, GL_PALETTE8_RGB5_A1_OES, GL_RGB, GL_RGBA,
    GL_UNSIGNED_SHORT_5_5_5_1,
};

fn table() -> ParamTable {
    ParamTable(vec![
        (1, ParamType::Float, 1),
        (2, ParamType::Boolean, 1),
        (3, ParamType::Int, 1),
        (4, ParamType::Float, 4),
        (1, ParamType::Int, 9),
    ])
}

#[test]
fn param_table_lookup_uses_first_entry() {
    let t = table();
    assert!(t.contains(1));
    assert!(t.contains(4));
    assert!(!t.contains(5));
    assert_eq!(t.get_type_info(1), (ParamType::Float, 1));
    assert_eq!(t.get_type_info(4), (ParamType::Float, 4));
    t.assert_component_count(4, 4);
    t.assert_known_param(3);
}

#[test]
fn setx_by_type() {
    let t = table();
    assert_eq!(t.setx(1, 0x1_8000), ParamSetting::Float(0x1_8000));
    assert_eq!(t.setx(2, 5), ParamSetting::Int(1));
    assert_eq!(t.setx(2, 0), ParamSetting::Int(0));
    assert_eq!(t.setx(3, -7), ParamSetting::Int(-7));
}

#[test]
fn setxv_converts_only_floats() {
    let t = table();
    match t.setxv(4, &[10, 20, 30, 40, 50]) {
        ParamSettingV::Floats(v) => assert_eq!(v, vec![10, 20, 30, 40]),
        ParamSettingV::Ints => panic!("expected floats"),
    }
    assert!(matches!(t.setxv(3, &[1]), ParamSettingV::Ints));
}

#[test]
fn get_params_table() {
    let t = get_params();
    assert_eq!(t.get_type_info(GL_MAX_TEXTURE_SIZE), (ParamType::Int, 1));
    assert_eq!(t.get_type_info(0x8df9), (ParamType::Int, 0));
    assert_eq!(t.get_type_info(0x8df8), (ParamType::Int, 1));
}

#[test]
fn paletted_formats() {
    assert_eq!(
        PalettedTextureFormat::get_info(GL_PALETTE4_RGB8_OES),
        Some(PalettedTextureFormat {
            index_is_nibble: true,
            palette_entry_format: GL_RGB,
            palette_entry_type: GL_UNSIGNED_BYTE,
        })
    );
    assert_eq!(
        PalettedTextureFormat::get_info(GL_PALETTE8_RGB5_A1_OES),
        Some(PalettedTextureFormat {
            index_is_nibble: false,
            palette_entry_format: GL_RGBA,
            palette_entry_type: GL_UNSIGNED_SHORT_5_5_5_1,
        })
    );
    assert_eq!(PalettedTextureFormat::get_info(GL_RGBA), None);
}

#[test]
fn fps_counter_reports_once_a_second() {
    let mut c = FpsCounter::start(1_000);
    assert_eq!(c.count_frame(500_000_000), None);
    assert_eq!(c.count_frame(900_000_000), None);
    assert_eq!(c.count_frame(1_000_001_000), Some((3, 1_000_000_000)));
    assert_eq!(c.count_frame(1_500_000_000), None);
    assert_eq!(c.count_frame(2_100_000_000), Some((2, 1_099_999_000)));
}

#[test]
fn array_table_order() {
    let a = arrays();
    assert_eq!(a.len(), ARRAY_COUNT);
    assert_eq!(a[COLOR].name, GL_COLOR_ARRAY);
    assert_eq!(a[NORMAL].name, GL_NORMAL_ARRAY);
    assert!(a[NORMAL].size.is_none());
    assert_eq!(a[TEXTURE_COORD].name, GL_TEXTURE_COORD_ARRAY);
    assert_eq!(a[VERTEX].name, GL_VERTEX_ARRAY);
}

#[test]
fn fixed_point_flags_follow_pointer_calls() {
    let mut s = GLES1OnGL2State::new();
    assert!(!s.any_fixed_point());
    assert_eq!(s.vertex_pointer(3, GL_FIXED), GL_FLOAT);
    assert!(s.any_fixed_point());
    assert!(s.needs_translation(VERTEX, 0));
    assert_eq!(s.vertex_pointer(3, GL_SHORT), GL_SHORT);
    assert!(!s.needs_translation(VERTEX, 0));
    assert!(!s.any_fixed_point());
    assert_eq!(s.color_pointer(4, GL_UNSIGNED_BYTE), GL_UNSIGNED_BYTE);
    assert_eq!(s.normal_pointer(GL_FIXED), GL_FLOAT);
    assert!(s.needs_translation(NORMAL, 0x84c0));
}

#[test]
fn texture_units_tracked_separately() {
    let mut s = GLES1OnGL2State::new();
    let unit0 = 0x84c0;
    let unit1 = 0x84c1;
    assert_eq!(s.tex_coord_pointer(2, GL_FIXED, unit0), GL_FLOAT);
    assert_eq!(s.tex_coord_pointer(2, GL_FIXED, unit1), GL_FLOAT);
    assert_eq!(s.tex_coord_pointer(2, GL_FIXED, unit1), GL_FLOAT);
    assert!(s.needs_translation(TEXTURE_COORD, unit0));
    assert!(s.needs_translation(TEXTURE_COORD, unit1));
    assert_eq!(s.tex_coord_pointer(2, GL_FLOAT, unit0), GL_FLOAT);
    assert!(!s.needs_translation(TEXTURE_COORD, unit0));
    assert!(s.needs_translation(TEXTURE_COORD, unit1));
    assert!(s.any_fixed_point());
    s.tex_coord_pointer(4, GL_SHORT, unit1);
    assert!(!s.any_fixed_point());
}

#[test]
fn draw_modes() {
    assert!(is_draw_mode(GL_TRIANGLES));
    assert!(is_draw_mode(0));
    assert!(!is_draw_mode(7));
}

#[test]
fn index_range_spans_min_to_max() {
    assert_eq!(index_range(&[]), (0, 0));
    assert_eq!(index_range(&[5]), (5, 1));
    assert_eq!(index_range(&[7, 3, 9, 3]), (3, 7));
}

#[test]
fn layout_defaults() {
    assert_eq!(fixed_point_layout(GL_NORMAL_ARRAY, None, 0), (3, 12));
    assert_eq!(fixed_point_layout(GL_VERTEX_ARRAY, Some(2), 0), (2, 8));
    assert_eq!(fixed_point_layout(GL_VERTEX_ARRAY, Some(2), 20), (2, 20));
}

#[test]
fn gather_places_components() {
    // Three vectors of two components, 12 bytes apart; draw vertices 1 and 2.
    let mut src = vec![0u8; 36];
    for j in 0..3usize {
        for k in 0..2usize {
            let v = (10 * j + k) as u32;
            src[j * 12 + 4 * k..j * 12 + 4 * k + 4].copy_from_slice(&v.to_le_bytes());
        }
    }
    let out = gather_fixed_point(&src, 1, 2, 2, 12);
    assert_eq!(out, vec![0, 0, 10, 11, 20, 21]);
}

#[test]
fn context_loads_once() {
    let mut c = GLES1OnGL2Context::new();
    assert!(c.make_current(true));
    assert!(!c.make_current(true));
    assert!(c.make_current(false));
    let layer = c.layer();
    assert!(!layer.state.any_fixed_point());
}

#[test]
fn paletted_texture_nibbles_high_first() {
    let format = PalettedTextureFormat::get_info(GL_PALETTE4_RGB8_OES).unwrap();
    // 16 RGB entries: entry e is (e, e, e).
    let mut data: Vec<u8> = (0..16u8).flat_map(|e| [e, e, e]).collect();
    // 3 pixels: indices 1, 2, 15.
    data.extend_from_slice(&[0x12, 0xf0]);
    let decoded = decode_paletted_texture(format, 3, 1, 0, 0, &data);
    assert_eq!(decoded, vec![1, 1, 1, 2, 2, 2, 15, 15, 15]);
}

#[test]
fn paletted_texture_bytes() {
    let format = PalettedTextureFormat::get_info(GL_PALETTE8_RGB5_A1_OES).unwrap();
    // 256 two-byte entries: entry e is (e, 0xff - e).
    let mut data: Vec<u8> = (0..=255u8).flat_map(|e| [e, 0xff - e]).collect();
    // 2 by 1 pixels, indices padded to a 4-byte word.
    data.extend_from_slice(&[200, 3, 0, 0]);
    let decoded = decode_paletted_texture(format, 2, 1, 0, 0, &data);
    assert_eq!(decoded, vec![200, 55, 3, 252]);
}

#[test]
fn blend_factors() {
    assert!(is_blend_factor(0));
    assert!(is_blend_factor(1));
    assert!(is_blend_factor(0x302));
    assert!(is_blend_factor(0x308));
    assert!(!is_blend_factor(0x309));
    assert!(!is_blend_factor(2));
}

#[test]
fn parameter_tables_for_fixed_point_setters() {
    let fog = fog_params();
    // GL_FOG_MODE is an integer, so the fixed-point value is passed as it is.
    assert!(matches!(fog.setx(GL_FOG_MODE, 0x2601), ParamSetting::Int(0x2601)));
    assert!(matches!(fog.setx(GL_FOG_DENSITY, 0x8000), ParamSetting::Float(0x8000)));
    match fog.setxv(GL_FOG_COLOR, &[1, 2, 3, 4, 5]) {
        ParamSettingV::Floats(v) => assert_eq!(v, vec![1, 2, 3, 4]),
        _ => panic!("fog colour is floating-point"),
    }
    let light_model = light_model_params();
    assert!(matches!(light_model.setx(GL_LIGHT_MODEL_TWO_SIDE, 7), ParamSetting::Int(1)));
    assert_eq!(light_params().get_type_info(GL_SPOT_DIRECTION), (ParamType::Float, 3));
    assert_eq!(material_params().get_type_info(GL_AMBIENT_AND_DIFFUSE), (ParamType::Float, 4));
    assert_eq!(point_params().get_type_info(GL_POINT_DISTANCE_ATTENUATION), (ParamType::Float, 3));
    assert_eq!(tex_params().get_type_info(GL_GENERATE_MIPMAP), (ParamType::Int, 1));
    assert_eq!(tex_env_params().get_type_info(GL_TEXTURE_ENV_COLOR), (ParamType::Float, 4));
    assert!(!tex_params().contains(GL_FOG_MODE));
}

#[test]
fn tex_env_calls_accepted() {
    assert!(tex_env_accepts(GL_TEXTURE_ENV, GL_TEXTURE_ENV_MODE, false, false));
    assert!(!tex_env_accepts(GL_TEXTURE_ENV, GL_TEXTURE_ENV_COLOR, false, true));
    assert!(tex_env_accepts(GL_TEXTURE_ENV, GL_TEXTURE_ENV_COLOR, true, false));
    assert!(!tex_env_accepts(GL_TEXTURE_ENV, GL_FOG_MODE, true, true));
    assert!(tex_env_accepts(GL_TEXTURE_FILTER_CONTROL_EXT, GL_TEXTURE_LOD_BIAS_EXT, false, false));
    assert!(!tex_env_accepts(GL_TEXTURE_FILTER_CONTROL_EXT, GL_TEXTURE_ENV_MODE, false, false));
    assert!(tex_env_accepts(GL_POINT_SPRITE, GL_COORD_REPLACE, true, false));
    assert!(tex_env_accepts(GL_TEXTURE_2D, GL_TEXTURE_ENV_MODE, false, true));
    assert!(!tex_env_accepts(GL_TEXTURE_2D, GL_TEXTURE_ENV_MODE, false, false));
    assert!(!tex_env_accepts(GL_TEXTURE_2D, GL_COMBINE_RGB, false, true));
}

#[test]
fn logic_ops_and_blend_equations() {
    assert!(is_logic_op(0x1500));
    assert!(is_logic_op(0x1506));
    assert!(is_logic_op(0x150F));
    assert!(!is_logic_op(0x1510));
    assert!(!is_logic_op(0x14FF));
    assert!(is_blend_equation(0x8006));
    assert!(is_blend_equation(0x800A));
    assert!(is_blend_equation(0x800B));
    assert!(!is_blend_equation(0x8007));
}

#[test]
fn capabilities_and_client_state() {
    assert!(is_capability(GL_BLEND));
    assert!(is_capability(GL_LIGHT7));
    assert!(is_capability(GL_TEXTURE_2D));
    assert!(!is_capability(GL_VERTEX_ARRAY));
    assert!(enable_accepts(GL_DEPTH_TEST));
    assert!(enable_accepts(GL_VERTEX_ARRAY));
    assert!(enable_accepts(GL_PERSPECTIVE_CORRECTION_HINT));
    assert!(enable_accepts(GL_TEXTURE));
    assert!(!enable_accepts(GL_FOG_HINT));
    assert!(client_state_accepts(GL_NORMAL_ARRAY));
    assert!(client_state_accepts(GL_BLEND));
    assert!(!client_state_accepts(GL_TEXTURE));
}

#[test]
fn enum_arguments_checked() {
    assert!(hint_accepts(GL_FOG_HINT, GL_NICEST));
    assert!(hint_accepts(GL_GENERATE_MIPMAP_HINT, 0));
    assert!(!hint_accepts(GL_FOG_HINT, 0x1234));
    assert!(!hint_accepts(GL_BLEND, GL_FASTEST));
    assert!(is_comparison_func(GL_NEVER));
    assert!(is_comparison_func(0x0203));
    assert!(is_comparison_func(GL_ALWAYS));
    assert!(!is_comparison_func(0x0208));
    assert!(is_stencil_op(GL_KEEP));
    assert!(is_stencil_op(0));
    assert!(is_stencil_op(GL_INVERT));
    assert!(!is_stencil_op(GL_NEVER));
    assert!(cull_face_accepts(GL_BACK));
    assert!(cull_face_accepts(GL_CCW));
    assert!(!cull_face_accepts(GL_NEVER));
    assert_eq!(material_call(GL_FRONT, GL_AMBIENT_AND_DIFFUSE), MaterialCall::Ignore);
    assert_eq!(material_call(GL_FRONT_AND_BACK, GL_AMBIENT_AND_DIFFUSE), MaterialCall::Apply);
    assert_eq!(material_call(GL_FRONT_AND_BACK, GL_FOG_MODE), MaterialCall::Refuse);
    assert!(tex_parameter_accepts(GL_TEXTURE_2D, GL_GENERATE_MIPMAP, false));
    assert!(tex_parameter_accepts(GL_TEXTURE_2D, GL_TEXTURE_MAX_LEVEL, true));
    assert!(!tex_parameter_accepts(GL_TEXTURE_2D, GL_TEXTURE_MAX_LEVEL, false));
    assert!(!tex_parameter_accepts(GL_TEXTURE, GL_GENERATE_MIPMAP, true));
}

#[test]
fn texture_image_arguments() {
    assert!(tex_image_accepts(GL_TEXTURE_2D, 0, GL_RGBA, 0, GL_BGRA, GL_UNSIGNED_BYTE));
    assert!(tex_image_accepts(GL_TEXTURE_2D, 2, GL_LUMINANCE, 0, GL_LUMINANCE, GL_UNSIGNED_BYTE));
    assert!(!tex_image_accepts(GL_TEXTURE_2D, 0, GL_BGRA, 0, GL_BGRA, GL_UNSIGNED_BYTE));
    assert!(!tex_image_accepts(GL_TEXTURE_2D, -1, GL_RGB, 0, GL_RGB, GL_UNSIGNED_BYTE));
    assert!(!tex_image_accepts(GL_TEXTURE_2D, 0, GL_RGB, 1, GL_RGB, GL_UNSIGNED_BYTE));
    assert!(!tex_image_accepts(GL_TEXTURE_2D, 0, GL_RGB, 0, GL_RGB, GL_FLOAT));
    assert!(tex_image_accepts(GL_TEXTURE_2D, 0, GL_RGBA, 0, GL_RGBA, GL_UNSIGNED_SHORT_5_5_5_1));
    assert!(tex_sub_image_accepts(GL_TEXTURE_2D, 0, GL_ALPHA, GL_UNSIGNED_BYTE));
    assert!(!tex_sub_image_accepts(GL_TEXTURE, 0, GL_ALPHA, GL_UNSIGNED_BYTE));
    assert!(copy_tex_image_accepts(GL_TEXTURE_2D, 0, GL_LUMINANCE_ALPHA, 0));
    assert!(!copy_tex_image_accepts(GL_TEXTURE_2D, 0, GL_BGRA, 0));
}

#[test]
fn pointer_and_tex_env_queries() {
    assert!(is_array_pointer(0x808E));
    assert!(is_array_pointer(0x8092));
    assert!(!is_array_pointer(GL_VERTEX_ARRAY));
    assert!(tex_env_get_accepts(GL_TEXTURE_ENV, GL_TEXTURE_ENV_MODE, false));
    assert!(!tex_env_get_accepts(GL_TEXTURE_ENV, GL_TEXTURE_ENV_MODE, true));
    assert!(tex_env_get_accepts(GL_TEXTURE_ENV, GL_TEXTURE_ENV_COLOR, true));
    assert!(!tex_env_get_accepts(GL_POINT_SPRITE, GL_COORD_REPLACE, false));
}

#[test]
fn state_queries_by_type() {
    let t = query_params();
    assert_eq!(t.get_type_info(GL_ALIASED_POINT_SIZE_RANGE), (ParamType::Float, 2));
    assert!(query_accepts(QueryKind::Integer, GL_ACTIVE_TEXTURE));
    assert!(query_accepts(QueryKind::Integer, GL_MAX_TEXTURE_SIZE));
    assert!(!query_accepts(QueryKind::Float, GL_ACTIVE_TEXTURE));
    assert!(query_accepts(QueryKind::Boolean, GL_BLEND));
    assert!(query_accepts(QueryKind::Boolean, GL_COLOR_WRITEMASK));
    assert!(query_accepts(QueryKind::Float, GL_CURRENT_COLOR));
    assert!(query_accepts(QueryKind::Float, GL_ALIASED_POINT_SIZE_RANGE));
    // The one floating-point parameter that may be read as an integer.
    assert!(query_accepts(QueryKind::Integer, 0x8127));
    assert!(!query_accepts(QueryKind::Integer, GL_ALIASED_POINT_SIZE_RANGE));
    assert!(!query_accepts(QueryKind::Integer, 0x1234));
    assert!(disable_accepts(GL_BLEND));
    assert!(disable_accepts(GL_ACTIVE_TEXTURE));
    assert!(disable_accepts(GL_TEXTURE));
    assert!(disable_accepts(0x8620));
    assert!(disable_accepts(GL_COMPRESSED_TEXTURE_FORMATS));
    assert!(!disable_accepts(0x1234));
    assert!(is_enabled_accepts(GL_NORMAL_ARRAY));
    assert!(!is_enabled_accepts(GL_TEXTURE));
}
