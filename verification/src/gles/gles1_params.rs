//! The argument rules of the OpenGL ES 1.1 layer: the parameter tables
//! (which parameters each setter takes, of what type and with how many
//! components), the capabilities, and which enums each call accepts. A call
//! with arguments outside these rules is a bug the layer refuses to pass on.
use vstd::prelude::*;
use crate::gles::gles1_on_gl2::{
    arrays, array_names, array_pointers, ARRAY_COUNT, GL_COLOR_ARRAY, GL_COLOR_ARRAY_BUFFER_BINDING, GL_COLOR_ARRAY_SIZE, GL_COLOR_ARRAY_STRIDE, GL_NORMAL_ARRAY, GL_NORMAL_ARRAY_BUFFER_BINDING, GL_NORMAL_ARRAY_STRIDE, GL_TEXTURE_COORD_ARRAY, GL_TEXTURE_COORD_ARRAY_BUFFER_BINDING, GL_TEXTURE_COORD_ARRAY_SIZE, GL_TEXTURE_COORD_ARRAY_STRIDE, GL_VERTEX_ARRAY, GL_VERTEX_ARRAY_BUFFER_BINDING, GL_VERTEX_ARRAY_SIZE, GL_VERTEX_ARRAY_STRIDE,
};
use crate::gles::util::{
    param_lookup, ParamSetting, ParamTable, ParamType, GL_MAX_TEXTURE_SIZE, GL_RGB, GL_RGBA, GL_UNSIGNED_BYTE,
    GL_UNSIGNED_SHORT_4_4_4_4, GL_UNSIGNED_SHORT_5_5_5_1, GL_UNSIGNED_SHORT_5_6_5,
};

verus! {

pub const GL_POINT_SMOOTH: u32 = 0x0B10;
pub const GL_LIGHT_MODEL_TWO_SIDE: u32 = 0x0B52;
pub const GL_LIGHT_MODEL_AMBIENT: u32 = 0x0B53;
pub const GL_FOG_DENSITY: u32 = 0x0B62;
pub const GL_FOG_START: u32 = 0x0B63;
pub const GL_FOG_END: u32 = 0x0B64;
pub const GL_FOG_MODE: u32 = 0x0B65;
pub const GL_FOG_COLOR: u32 = 0x0B66;
pub const GL_ALPHA_SCALE: u32 = 0x0D1C;
pub const GL_TEXTURE_2D: u32 = 0x0DE1;
pub const GL_AMBIENT: u32 = 0x1200;
pub const GL_DIFFUSE: u32 = 0x1201;
pub const GL_SPECULAR: u32 = 0x1202;
pub const GL_POSITION: u32 = 0x1203;
pub const GL_SPOT_DIRECTION: u32 = 0x1204;
pub const GL_SPOT_EXPONENT: u32 = 0x1205;
pub const GL_SPOT_CUTOFF: u32 = 0x1206;
pub const GL_CONSTANT_ATTENUATION: u32 = 0x1207;
pub const GL_LINEAR_ATTENUATION: u32 = 0x1208;
pub const GL_QUADRATIC_ATTENUATION: u32 = 0x1209;
pub const GL_EMISSION: u32 = 0x1600;
pub const GL_SHININESS: u32 = 0x1601;
pub const GL_AMBIENT_AND_DIFFUSE: u32 = 0x1602;
pub const GL_TEXTURE_ENV_MODE: u32 = 0x2200;
pub const GL_TEXTURE_ENV_COLOR: u32 = 0x2201;
pub const GL_TEXTURE_ENV: u32 = 0x2300;
pub const GL_TEXTURE_MAG_FILTER: u32 = 0x2800;
pub const GL_TEXTURE_MIN_FILTER: u32 = 0x2801;
pub const GL_TEXTURE_WRAP_S: u32 = 0x2802;
pub const GL_TEXTURE_WRAP_T: u32 = 0x2803;
pub const GL_POINT_SIZE_MIN: u32 = 0x8126;
pub const GL_POINT_SIZE_MAX: u32 = 0x8127;
pub const GL_POINT_FADE_THRESHOLD_SIZE: u32 = 0x8128;
pub const GL_POINT_DISTANCE_ATTENUATION: u32 = 0x8129;
pub const GL_GENERATE_MIPMAP: u32 = 0x8191;
pub const GL_TEXTURE_MAX_ANISOTROPY_EXT: u32 = 0x84FE;
pub const GL_MAX_TEXTURE_MAX_ANISOTROPY_EXT: u32 = 0x84FF;
pub const GL_TEXTURE_FILTER_CONTROL_EXT: u32 = 0x8500;
pub const GL_TEXTURE_LOD_BIAS_EXT: u32 = 0x8501;
pub const GL_COMBINE_RGB: u32 = 0x8571;
pub const GL_COMBINE_ALPHA: u32 = 0x8572;
pub const GL_RGB_SCALE: u32 = 0x8573;
pub const GL_SRC0_RGB: u32 = 0x8580;
pub const GL_SRC1_RGB: u32 = 0x8581;
pub const GL_SRC2_RGB: u32 = 0x8582;
pub const GL_SRC0_ALPHA: u32 = 0x8588;
pub const GL_SRC1_ALPHA: u32 = 0x8589;
pub const GL_SRC2_ALPHA: u32 = 0x858A;
pub const GL_OPERAND0_RGB: u32 = 0x8590;
pub const GL_OPERAND1_RGB: u32 = 0x8591;
pub const GL_OPERAND2_RGB: u32 = 0x8592;
pub const GL_OPERAND0_ALPHA: u32 = 0x8598;
pub const GL_OPERAND1_ALPHA: u32 = 0x8599;
pub const GL_OPERAND2_ALPHA: u32 = 0x859A;
pub const GL_POINT_SPRITE: u32 = 0x8861;
pub const GL_COORD_REPLACE: u32 = 0x8862;

/// The entries of [point_params].
pub open spec fn point_table() -> Seq<(u32, ParamType, usize)> {
    seq![
        (GL_POINT_SIZE_MIN, ParamType::Float, 1usize),
        (GL_POINT_SIZE_MAX, ParamType::Float, 1usize),
        (GL_POINT_DISTANCE_ATTENUATION, ParamType::Float, 3usize),
        (GL_POINT_FADE_THRESHOLD_SIZE, ParamType::Float, 1usize),
        (GL_POINT_SMOOTH, ParamType::Boolean, 1usize),
    ]
}

/// The table of `glPointParameter` parameters shared by OpenGL ES 1.1 and
/// OpenGL 2.1.
pub fn point_params() -> (t: ParamTable)
    ensures
        t.entries() == point_table(),
{
    ParamTable(
        vec![
            (GL_POINT_SIZE_MIN, ParamType::Float, 1usize),
            (GL_POINT_SIZE_MAX, ParamType::Float, 1usize),
            (GL_POINT_DISTANCE_ATTENUATION, ParamType::Float, 3usize),
            (GL_POINT_FADE_THRESHOLD_SIZE, ParamType::Float, 1usize),
            (GL_POINT_SMOOTH, ParamType::Boolean, 1usize),
        ],
    )
}

/// The entries of [fog_params].
pub open spec fn fog_table() -> Seq<(u32, ParamType, usize)> {
    seq![
        (GL_FOG_MODE, ParamType::Int, 1usize),
        (GL_FOG_DENSITY, ParamType::Float, 1usize),
        (GL_FOG_START, ParamType::Float, 1usize),
        (GL_FOG_END, ParamType::Float, 1usize),
        (GL_FOG_COLOR, ParamType::FloatSpecial, 4usize),
    ]
}

/// The table of `glFog` parameters shared by OpenGL ES 1.1 and OpenGL 2.1.
/// `GL_FOG_MODE` is an integer, though OpenGL ES 1.1 only has the f, fv, x
/// and xv setters (the x and xv ones are meant for it).
pub fn fog_params() -> (t: ParamTable)
    ensures
        t.entries() == fog_table(),
{
    ParamTable(
        vec![
            (GL_FOG_MODE, ParamType::Int, 1usize),
            (GL_FOG_DENSITY, ParamType::Float, 1usize),
            (GL_FOG_START, ParamType::Float, 1usize),
            (GL_FOG_END, ParamType::Float, 1usize),
            (GL_FOG_COLOR, ParamType::FloatSpecial, 4usize),
        ],
    )
}

/// The entries of [light_params].
pub open spec fn light_table() -> Seq<(u32, ParamType, usize)> {
    seq![
        (GL_AMBIENT, ParamType::Float, 4usize),
        (GL_DIFFUSE, ParamType::Float, 4usize),
        (GL_SPECULAR, ParamType::Float, 4usize),
        (GL_POSITION, ParamType::Float, 4usize),
        (GL_SPOT_CUTOFF, ParamType::Float, 1usize),
        (GL_SPOT_DIRECTION, ParamType::Float, 3usize),
        (GL_SPOT_EXPONENT, ParamType::Float, 1usize),
        (GL_CONSTANT_ATTENUATION, ParamType::Float, 1usize),
        (GL_LINEAR_ATTENUATION, ParamType::Float, 1usize),
        (GL_QUADRATIC_ATTENUATION, ParamType::Float, 1usize),
    ]
}

/// The table of `glLight` parameters shared by OpenGL ES 1.1 and OpenGL 2.1.
pub fn light_params() -> (t: ParamTable)
    ensures
        t.entries() == light_table(),
{
    ParamTable(
        vec![
            (GL_AMBIENT, ParamType::Float, 4usize),
            (GL_DIFFUSE, ParamType::Float, 4usize),
            (GL_SPECULAR, ParamType::Float, 4usize),
            (GL_POSITION, ParamType::Float, 4usize),
            (GL_SPOT_CUTOFF, ParamType::Float, 1usize),
            (GL_SPOT_DIRECTION, ParamType::Float, 3usize),
            (GL_SPOT_EXPONENT, ParamType::Float, 1usize),
            (GL_CONSTANT_ATTENUATION, ParamType::Float, 1usize),
            (GL_LINEAR_ATTENUATION, ParamType::Float, 1usize),
            (GL_QUADRATIC_ATTENUATION, ParamType::Float, 1usize),
        ],
    )
}

/// The entries of [light_model_params].
pub open spec fn light_model_table() -> Seq<(u32, ParamType, usize)> {
    seq![
        (GL_LIGHT_MODEL_AMBIENT, ParamType::Float, 4usize),
        (GL_LIGHT_MODEL_TWO_SIDE, ParamType::Boolean, 1usize),
    ]
}

/// The table of `glLightModel` parameters shared by OpenGL ES 1.1 and
/// OpenGL 2.1.
pub fn light_model_params() -> (t: ParamTable)
    ensures
        t.entries() == light_model_table(),
{
    ParamTable(
        vec![
            (GL_LIGHT_MODEL_AMBIENT, ParamType::Float, 4usize),
            (GL_LIGHT_MODEL_TWO_SIDE, ParamType::Boolean, 1usize),
        ],
    )
}

/// The entries of [material_params].
pub open spec fn material_table() -> Seq<(u32, ParamType, usize)> {
    seq![
        (GL_AMBIENT, ParamType::Float, 4usize),
        (GL_DIFFUSE, ParamType::Float, 4usize),
        (GL_SPECULAR, ParamType::Float, 4usize),
        (GL_EMISSION, ParamType::Float, 4usize),
        (GL_SHININESS, ParamType::Float, 1usize),
        (GL_AMBIENT_AND_DIFFUSE, ParamType::Float, 4usize),
    ]
}

/// The table of `glMaterial` parameters shared by OpenGL ES 1.1 and
/// OpenGL 2.1.
/// `GL_AMBIENT_AND_DIFFUSE` is not a parameter of its own: it sets both.
pub fn material_params() -> (t: ParamTable)
    ensures
        t.entries() == material_table(),
{
    ParamTable(
        vec![
            (GL_AMBIENT, ParamType::Float, 4usize),
            (GL_DIFFUSE, ParamType::Float, 4usize),
            (GL_SPECULAR, ParamType::Float, 4usize),
            (GL_EMISSION, ParamType::Float, 4usize),
            (GL_SHININESS, ParamType::Float, 1usize),
            (GL_AMBIENT_AND_DIFFUSE, ParamType::Float, 4usize),
        ],
    )
}

/// The table of `glTexEnv` parameters of the `GL_TEXTURE_ENV` target shared
/// by OpenGL ES 1.1 and OpenGL 2.1.
pub fn tex_env_params() -> (t: ParamTable)
    ensures
        t.entries() == tex_env_table(),
{
    ParamTable(
        vec![
            (GL_TEXTURE_ENV_MODE, ParamType::Int, 1usize),
            (GL_COORD_REPLACE, ParamType::Int, 1usize),
            (GL_COMBINE_RGB, ParamType::Int, 1usize),
            (GL_COMBINE_ALPHA, ParamType::Int, 1usize),
            (GL_SRC0_RGB, ParamType::Int, 1usize),
            (GL_SRC1_RGB, ParamType::Int, 1usize),
            (GL_SRC2_RGB, ParamType::Int, 1usize),
            (GL_SRC0_ALPHA, ParamType::Int, 1usize),
            (GL_SRC1_ALPHA, ParamType::Int, 1usize),
            (GL_SRC2_ALPHA, ParamType::Int, 1usize),
            (GL_OPERAND0_RGB, ParamType::Int, 1usize),
            (GL_OPERAND1_RGB, ParamType::Int, 1usize),
            (GL_OPERAND2_RGB, ParamType::Int, 1usize),
            (GL_OPERAND0_ALPHA, ParamType::Int, 1usize),
            (GL_OPERAND1_ALPHA, ParamType::Int, 1usize),
            (GL_OPERAND2_ALPHA, ParamType::Int, 1usize),
            (GL_TEXTURE_ENV_COLOR, ParamType::Float, 4usize),
            (GL_RGB_SCALE, ParamType::Float, 1usize),
            (GL_ALPHA_SCALE, ParamType::Float, 1usize),
        ],
    )
}

/// The entries of [tex_params].
pub open spec fn tex_table() -> Seq<(u32, ParamType, usize)> {
    seq![
        (GL_TEXTURE_MIN_FILTER, ParamType::Int, 1usize),
        (GL_TEXTURE_MAG_FILTER, ParamType::Int, 1usize),
        (GL_TEXTURE_WRAP_S, ParamType::Int, 1usize),
        (GL_TEXTURE_WRAP_T, ParamType::Int, 1usize),
        (GL_GENERATE_MIPMAP, ParamType::Int, 1usize),
        (GL_TEXTURE_MAX_ANISOTROPY_EXT, ParamType::Float, 1usize),
        (GL_MAX_TEXTURE_MAX_ANISOTROPY_EXT, ParamType::Float, 1usize),
    ]
}

/// The `glTexParameter` parameters whose values are enums or flags
/// (filters, wrap modes, mipmap generation) are integer parameters with one
/// component, so a fixed-point setter (`glTexParameterx`) hands any value of
/// theirs to the integer setter unchanged, never converting it as a 16.16
/// number; the anisotropy parameters, which are quantities, are converted.
pub proof fn law_enum_tex_params_pass_through(pname: u32, param: i32)
    ensures
        (pname == GL_TEXTURE_MIN_FILTER || pname == GL_TEXTURE_MAG_FILTER || pname
            == GL_TEXTURE_WRAP_S || pname == GL_TEXTURE_WRAP_T || pname == GL_GENERATE_MIPMAP) ==> {
            &&& param_lookup(tex_table(), pname) == Some((ParamType::Int, 1usize))
            &&& (match param_lookup(tex_table(), pname).unwrap().0 {
                ParamType::Float | ParamType::FloatSpecial => ParamSetting::Float(param),
                ParamType::Int => ParamSetting::Int(param),
                ParamType::Boolean => ParamSetting::Int(if param != 0 { 1 } else { 0 }),
            }) == ParamSetting::Int(param)
        },
        (pname == GL_TEXTURE_MAX_ANISOTROPY_EXT || pname == GL_MAX_TEXTURE_MAX_ANISOTROPY_EXT)
            ==> param_lookup(tex_table(), pname) == Some((ParamType::Float, 1usize)),
        param_lookup(tex_table(), pname) is Some <==> (pname == GL_TEXTURE_MIN_FILTER || pname
            == GL_TEXTURE_MAG_FILTER || pname == GL_TEXTURE_WRAP_S || pname == GL_TEXTURE_WRAP_T
            || pname == GL_GENERATE_MIPMAP || pname == GL_TEXTURE_MAX_ANISOTROPY_EXT || pname
            == GL_MAX_TEXTURE_MAX_ANISOTROPY_EXT),
{
    reveal_with_fuel(param_lookup, 8);
}

/// The table of `glTexParameter` parameters.
pub fn tex_params() -> (t: ParamTable)
    ensures
        t.entries() == tex_table(),
{
    ParamTable(
        vec![
            (GL_TEXTURE_MIN_FILTER, ParamType::Int, 1usize),
            (GL_TEXTURE_MAG_FILTER, ParamType::Int, 1usize),
            (GL_TEXTURE_WRAP_S, ParamType::Int, 1usize),
            (GL_TEXTURE_WRAP_T, ParamType::Int, 1usize),
            (GL_GENERATE_MIPMAP, ParamType::Int, 1usize),
            (GL_TEXTURE_MAX_ANISOTROPY_EXT, ParamType::Float, 1usize),
            (GL_MAX_TEXTURE_MAX_ANISOTROPY_EXT, ParamType::Float, 1usize),
        ],
    )
}

/// Whether a `glTexEnv` call for `target` and `pname` is one the layer
/// passes on. For `GL_TEXTURE_ENV`, `pname` must be in [tex_env_params],
/// with a single component unless the call takes a vector; the level-of-detail
/// bias and point sprite targets each have their one parameter. Setting
/// `GL_TEXTURE_ENV_MODE` of `GL_TEXTURE_2D`, which is not a valid target, is
/// tolerated by the float and integer setters (`tolerate_texture_2d`), as some
/// apps do it.
pub open spec fn tex_env_accepted(target: u32, pname: u32, vector: bool, tolerate_texture_2d: bool) -> bool {
    if target == GL_TEXTURE_ENV {
        match param_lookup(tex_env_table(), pname) {
            Some(info) => vector || info.1 == 1,
            None => false,
        }
    } else if target == GL_TEXTURE_FILTER_CONTROL_EXT {
        pname == GL_TEXTURE_LOD_BIAS_EXT
    } else if target == GL_POINT_SPRITE {
        pname == GL_COORD_REPLACE
    } else if target == GL_TEXTURE_2D {
        tolerate_texture_2d && pname == GL_TEXTURE_ENV_MODE
    } else {
        false
    }
}

/// The entries of [tex_env_params].
pub open spec fn tex_env_table() -> Seq<(u32, ParamType, usize)> {
    seq![
        (GL_TEXTURE_ENV_MODE, ParamType::Int, 1usize),
        (GL_COORD_REPLACE, ParamType::Int, 1usize),
        (GL_COMBINE_RGB, ParamType::Int, 1usize),
        (GL_COMBINE_ALPHA, ParamType::Int, 1usize),
        (GL_SRC0_RGB, ParamType::Int, 1usize),
        (GL_SRC1_RGB, ParamType::Int, 1usize),
        (GL_SRC2_RGB, ParamType::Int, 1usize),
        (GL_SRC0_ALPHA, ParamType::Int, 1usize),
        (GL_SRC1_ALPHA, ParamType::Int, 1usize),
        (GL_SRC2_ALPHA, ParamType::Int, 1usize),
        (GL_OPERAND0_RGB, ParamType::Int, 1usize),
        (GL_OPERAND1_RGB, ParamType::Int, 1usize),
        (GL_OPERAND2_RGB, ParamType::Int, 1usize),
        (GL_OPERAND0_ALPHA, ParamType::Int, 1usize),
        (GL_OPERAND1_ALPHA, ParamType::Int, 1usize),
        (GL_OPERAND2_ALPHA, ParamType::Int, 1usize),
        (GL_TEXTURE_ENV_COLOR, ParamType::Float, 4usize),
        (GL_RGB_SCALE, ParamType::Float, 1usize),
        (GL_ALPHA_SCALE, ParamType::Float, 1usize),
    ]
}

/// Checks a `glTexEnv` call (see [tex_env_accepted]); the layer refuses
/// the others.
pub fn tex_env_accepts(target: u32, pname: u32, vector: bool, tolerate_texture_2d: bool) -> (ok: bool)
    ensures
        ok == tex_env_accepted(target, pname, vector, tolerate_texture_2d),
{
    if target == GL_TEXTURE_ENV {
        let table = tex_env_params();
        assert(table.entries() =~= tex_env_table());
        if !table.contains(pname) {
            return false;
        }
        let (_type, count) = table.get_type_info(pname);
        vector || count == 1
    } else if target == GL_TEXTURE_FILTER_CONTROL_EXT {
        pname == GL_TEXTURE_LOD_BIAS_EXT
    } else if target == GL_POINT_SPRITE {
        pname == GL_COORD_REPLACE
    } else if target == GL_TEXTURE_2D {
        tolerate_texture_2d && pname == GL_TEXTURE_ENV_MODE
    } else {
        false
    }
}

/// The logical operations that `glLogicOp` accepts: all sixteen, from
/// `GL_CLEAR` to `GL_SET`.
pub open spec fn spec_is_logic_op(opcode: u32) -> bool {
    0x1500 <= opcode && opcode <= 0x150F
}

/// Whether `opcode` is an operation that `glLogicOp` accepts.
pub fn is_logic_op(opcode: u32) -> (b: bool)
    ensures
        b == spec_is_logic_op(opcode),
{
    0x1500 <= opcode && opcode <= 0x150F
}

/// The blend equations that `glBlendEquationOES` accepts: `GL_FUNC_ADD`,
/// `GL_FUNC_SUBTRACT` and `GL_FUNC_REVERSE_SUBTRACT`.
pub open spec fn spec_is_blend_equation(mode: u32) -> bool {
    mode == 0x8006 || mode == 0x800A || mode == 0x800B
}

/// Whether `mode` is a blend equation that `glBlendEquationOES` accepts.
pub fn is_blend_equation(mode: u32) -> (b: bool)
    ensures
        b == spec_is_blend_equation(mode),
{
    mode == 0x8006 || mode == 0x800A || mode == 0x800B
}


pub const GL_ALPHA_TEST: u32 = 0x0BC0;
pub const GL_BLEND: u32 = 0x0BE2;
pub const GL_COLOR_LOGIC_OP: u32 = 0x0BF2;
pub const GL_CLIP_PLANE0: u32 = 0x3000;
pub const GL_CLIP_PLANE1: u32 = 0x3001;
pub const GL_CLIP_PLANE2: u32 = 0x3002;
pub const GL_CLIP_PLANE3: u32 = 0x3003;
pub const GL_CLIP_PLANE4: u32 = 0x3004;
pub const GL_CLIP_PLANE5: u32 = 0x3005;
pub const GL_LIGHT0: u32 = 0x4000;
pub const GL_LIGHT1: u32 = 0x4001;
pub const GL_LIGHT2: u32 = 0x4002;
pub const GL_LIGHT3: u32 = 0x4003;
pub const GL_LIGHT4: u32 = 0x4004;
pub const GL_LIGHT5: u32 = 0x4005;
pub const GL_LIGHT6: u32 = 0x4006;
pub const GL_LIGHT7: u32 = 0x4007;
pub const GL_COLOR_MATERIAL: u32 = 0x0B57;
pub const GL_CULL_FACE: u32 = 0x0B44;
pub const GL_DEPTH_TEST: u32 = 0x0B71;
pub const GL_DITHER: u32 = 0x0BD0;
pub const GL_FOG: u32 = 0x0B60;
pub const GL_LIGHTING: u32 = 0x0B50;
pub const GL_LINE_SMOOTH: u32 = 0x0B20;
pub const GL_MULTISAMPLE: u32 = 0x809D;
pub const GL_NORMALIZE: u32 = 0x0BA1;
pub const GL_POLYGON_OFFSET_FILL: u32 = 0x8037;
pub const GL_RESCALE_NORMAL: u32 = 0x803A;
pub const GL_SAMPLE_ALPHA_TO_COVERAGE: u32 = 0x809E;
pub const GL_SAMPLE_ALPHA_TO_ONE: u32 = 0x809F;
pub const GL_SAMPLE_COVERAGE: u32 = 0x80A0;
pub const GL_SCISSOR_TEST: u32 = 0x0C11;
pub const GL_STENCIL_TEST: u32 = 0x0B90;
pub const GL_TEXTURE: u32 = 0x1702;
pub const GL_PERSPECTIVE_CORRECTION_HINT: u32 = 0x0C50;
pub const GL_SMOOTH: u32 = 0x1D01;
pub const GL_BLEND_EQUATION: u32 = 0x8009;
pub const GL_POINT_SMOOTH_HINT: u32 = 0x0C51;
pub const GL_LINE_SMOOTH_HINT: u32 = 0x0C52;
pub const GL_FOG_HINT: u32 = 0x0C54;
pub const GL_GENERATE_MIPMAP_HINT: u32 = 0x8192;
pub const GL_DONT_CARE: u32 = 0x1100;
pub const GL_FASTEST: u32 = 0x1101;
pub const GL_NICEST: u32 = 0x1102;
pub const GL_NEVER: u32 = 0x0200;
pub const GL_ALWAYS: u32 = 0x0207;
pub const GL_KEEP: u32 = 0x1E00;
pub const GL_REPLACE: u32 = 0x1E01;
pub const GL_INCR: u32 = 0x1E02;
pub const GL_DECR: u32 = 0x1E03;
pub const GL_INVERT: u32 = 0x150A;
pub const GL_FRONT: u32 = 0x0404;
pub const GL_BACK: u32 = 0x0405;
pub const GL_FRONT_AND_BACK: u32 = 0x0408;
pub const GL_CCW: u32 = 0x0901;
pub const GL_TEXTURE_MAX_LEVEL: u32 = 0x813D;
pub const GL_VERTEX_PROGRAM_NV: u32 = 0x8620;

/// The capabilities that `glEnable` and `glDisable` take, shared by OpenGL
/// ES 1.1 and OpenGL 2.1 (`GL_POINT_SPRITE` is also the extension's
/// `GL_POINT_SPRITE_OES`).
pub open spec fn capability_list() -> Seq<u32> {
    seq![
        GL_ALPHA_TEST,
        GL_BLEND,
        GL_COLOR_LOGIC_OP,
        GL_CLIP_PLANE0,
        GL_CLIP_PLANE1,
        GL_CLIP_PLANE2,
        GL_CLIP_PLANE3,
        GL_CLIP_PLANE4,
        GL_CLIP_PLANE5,
        GL_LIGHT0,
        GL_LIGHT1,
        GL_LIGHT2,
        GL_LIGHT3,
        GL_LIGHT4,
        GL_LIGHT5,
        GL_LIGHT6,
        GL_LIGHT7,
        GL_COLOR_MATERIAL,
        GL_CULL_FACE,
        GL_DEPTH_TEST,
        GL_DITHER,
        GL_FOG,
        GL_LIGHTING,
        GL_LINE_SMOOTH,
        GL_MULTISAMPLE,
        GL_NORMALIZE,
        GL_POINT_SMOOTH,
        GL_POLYGON_OFFSET_FILL,
        GL_RESCALE_NORMAL,
        GL_SAMPLE_ALPHA_TO_COVERAGE,
        GL_SAMPLE_ALPHA_TO_ONE,
        GL_SAMPLE_COVERAGE,
        GL_SCISSOR_TEST,
        GL_STENCIL_TEST,
        GL_TEXTURE_2D,
        GL_POINT_SPRITE,
    ]
}

/// Whether `cap` is one of the [capability_list].
pub fn is_capability(cap: u32) -> (b: bool)
    ensures
        b == capability_list().contains(cap),
{
    let list: Vec<u32> = vec![
        GL_ALPHA_TEST,
        GL_BLEND,
        GL_COLOR_LOGIC_OP,
        GL_CLIP_PLANE0,
        GL_CLIP_PLANE1,
        GL_CLIP_PLANE2,
        GL_CLIP_PLANE3,
        GL_CLIP_PLANE4,
        GL_CLIP_PLANE5,
        GL_LIGHT0,
        GL_LIGHT1,
        GL_LIGHT2,
        GL_LIGHT3,
        GL_LIGHT4,
        GL_LIGHT5,
        GL_LIGHT6,
        GL_LIGHT7,
        GL_COLOR_MATERIAL,
        GL_CULL_FACE,
        GL_DEPTH_TEST,
        GL_DITHER,
        GL_FOG,
        GL_LIGHTING,
        GL_LINE_SMOOTH,
        GL_MULTISAMPLE,
        GL_NORMALIZE,
        GL_POINT_SMOOTH,
        GL_POLYGON_OFFSET_FILL,
        GL_RESCALE_NORMAL,
        GL_SAMPLE_ALPHA_TO_COVERAGE,
        GL_SAMPLE_ALPHA_TO_ONE,
        GL_SAMPLE_COVERAGE,
        GL_SCISSOR_TEST,
        GL_STENCIL_TEST,
        GL_TEXTURE_2D,
        GL_POINT_SPRITE,
    ];
    assert(list@ =~= capability_list());
    let mut i: usize = 0;
    while i < list.len()
        invariant
            list@ == capability_list(),
            i <= list@.len(),
            forall|j: int| 0 <= j < i ==> list@[j] != cap,
        decreases list@.len() - i,
    {
        if list[i] == cap {
            assert(list@[i as int] == cap);
            return true;
        }
        i = i + 1;
    }
    false
}

/// Whether `name` names one of the vertex arrays.
fn is_array_name(name: u32) -> (b: bool)
    ensures
        b == array_names().contains(name),
{
    let a = arrays();
    let mut i: usize = 0;
    while i < a.len()
        invariant
            a@.len() == ARRAY_COUNT,
            forall|j: int| 0 <= j < ARRAY_COUNT ==> #[trigger] a@[j].name == array_names()[j],
            i <= ARRAY_COUNT,
            forall|j: int| 0 <= j < i ==> array_names()[j] != name,
        decreases ARRAY_COUNT - i,
    {
        if a[i].name == name {
            assert(array_names()[i as int] == name);
            return true;
        }
        i = i + 1;
    }
    false
}

/// What `glEnable` accepts: a capability; also tolerated, as apps pass them,
/// a vertex array (which is client state) and `GL_PERSPECTIVE_CORRECTION_HINT`,
/// `GL_SMOOTH`, `GL_BLEND_EQUATION` and `GL_TEXTURE`, which are not
/// capabilities.
pub open spec fn enable_accepted(cap: u32) -> bool {
    ||| array_names().contains(cap)
    ||| cap == GL_PERSPECTIVE_CORRECTION_HINT || cap == GL_SMOOTH || cap == GL_BLEND_EQUATION || cap
        == GL_TEXTURE
    ||| capability_list().contains(cap)
}

/// Checks a `glEnable` call (see [enable_accepted]).
pub fn enable_accepts(cap: u32) -> (ok: bool)
    ensures
        ok == enable_accepted(cap),
{
    is_array_name(cap) || cap == GL_PERSPECTIVE_CORRECTION_HINT || cap == GL_SMOOTH || cap
        == GL_BLEND_EQUATION || cap == GL_TEXTURE || is_capability(cap)
}

/// What `glEnableClientState` and `glDisableClientState` accept: a vertex
/// array, or (tolerated) a capability.
pub open spec fn client_state_accepted(array: u32) -> bool {
    capability_list().contains(array) || array_names().contains(array)
}

/// Checks a `glEnableClientState` or `glDisableClientState` call (see
/// [client_state_accepted]).
pub fn client_state_accepts(array: u32) -> (ok: bool)
    ensures
        ok == client_state_accepted(array),
{
    is_capability(array) || is_array_name(array)
}

/// What `glHint` accepts: a hint target and `GL_FASTEST`, `GL_NICEST` or
/// `GL_DONT_CARE`; a zero mode is tolerated.
pub open spec fn hint_accepted(target: u32, mode: u32) -> bool {
    &&& (target == GL_FOG_HINT || target == GL_GENERATE_MIPMAP_HINT || target == GL_LINE_SMOOTH_HINT
        || target == GL_PERSPECTIVE_CORRECTION_HINT || target == GL_POINT_SMOOTH_HINT)
    &&& (mode == 0 || mode == GL_FASTEST || mode == GL_NICEST || mode == GL_DONT_CARE)
}

/// Checks a `glHint` call (see [hint_accepted]).
pub fn hint_accepts(target: u32, mode: u32) -> (ok: bool)
    ensures
        ok == hint_accepted(target, mode),
{
    (target == GL_FOG_HINT || target == GL_GENERATE_MIPMAP_HINT || target == GL_LINE_SMOOTH_HINT
        || target == GL_PERSPECTIVE_CORRECTION_HINT || target == GL_POINT_SMOOTH_HINT) && (mode == 0
        || mode == GL_FASTEST || mode == GL_NICEST || mode == GL_DONT_CARE)
}

/// The comparison functions of `glAlphaFunc`, `glDepthFunc` and
/// `glStencilFunc`: `GL_NEVER` to `GL_ALWAYS`.
pub open spec fn spec_is_comparison_func(func: u32) -> bool {
    GL_NEVER <= func && func <= GL_ALWAYS
}

/// Whether `func` is a comparison function (see [spec_is_comparison_func]).
pub fn is_comparison_func(func: u32) -> (b: bool)
    ensures
        b == spec_is_comparison_func(func),
{
    GL_NEVER <= func && func <= GL_ALWAYS
}

/// The stencil operations that `glStencilOp` accepts for each of its three
/// arguments.
pub open spec fn spec_is_stencil_op(op: u32) -> bool {
    op == GL_KEEP || op == 0 || op == GL_REPLACE || op == GL_INCR || op == GL_DECR || op == GL_INVERT
}

/// Whether `op` is a stencil operation (see [spec_is_stencil_op]).
pub fn is_stencil_op(op: u32) -> (b: bool)
    ensures
        b == spec_is_stencil_op(op),
{
    op == GL_KEEP || op == 0 || op == GL_REPLACE || op == GL_INCR || op == GL_DECR || op == GL_INVERT
}

/// What `glCullFace` accepts: `GL_FRONT`, `GL_BACK` or `GL_FRONT_AND_BACK`;
/// `GL_CCW`, a winding rather than a face, is tolerated.
pub open spec fn cull_face_accepted(mode: u32) -> bool {
    mode == GL_CCW || mode == GL_FRONT || mode == GL_BACK || mode == GL_FRONT_AND_BACK
}

/// Checks a `glCullFace` call (see [cull_face_accepted]).
pub fn cull_face_accepts(mode: u32) -> (ok: bool)
    ensures
        ok == cull_face_accepted(mode),
{
    mode == GL_CCW || mode == GL_FRONT || mode == GL_BACK || mode == GL_FRONT_AND_BACK
}

/// What the layer does with a `glMaterialfv` call.
#[derive(Copy, Clone, Debug, PartialEq, Eq, Structural)]
pub enum MaterialCall {
    /// Passed on.
    Apply,
    /// Ignored: OpenGL ES only has `GL_FRONT_AND_BACK`, but some apps ask for
    /// one face.
    Ignore,
    /// Refused.
    Refuse,
}

/// Decides a `glMaterialfv(face, pname, ..)` call: one face is ignored;
/// both faces with a parameter of [material_params] are passed on.
pub fn material_call(face: u32, pname: u32) -> (c: MaterialCall)
    ensures
        c == if face == GL_FRONT || face == GL_BACK {
            MaterialCall::Ignore
        } else if face == GL_FRONT_AND_BACK && param_lookup(material_table(), pname) is Some {
            MaterialCall::Apply
        } else {
            MaterialCall::Refuse
        },
{
    if face == GL_FRONT || face == GL_BACK {
        return MaterialCall::Ignore;
    }
    let table = material_params();
    assert(table.entries() =~= material_table());
    if face == GL_FRONT_AND_BACK && table.contains(pname) {
        MaterialCall::Apply
    } else {
        MaterialCall::Refuse
    }
}

/// What `glTexParameter` accepts: the target `GL_TEXTURE_2D` with a
/// parameter of [tex_params]; the integer setter also tolerates
/// `GL_TEXTURE_MAX_LEVEL`, which OpenGL ES does not have.
pub open spec fn tex_parameter_accepted(target: u32, pname: u32, integer_setter: bool) -> bool {
    &&& target == GL_TEXTURE_2D
    &&& (param_lookup(tex_table(), pname) is Some || (integer_setter && pname == GL_TEXTURE_MAX_LEVEL))
}

/// Checks a `glTexParameter` call (see [tex_parameter_accepted]).
pub fn tex_parameter_accepts(target: u32, pname: u32, integer_setter: bool) -> (ok: bool)
    ensures
        ok == tex_parameter_accepted(target, pname, integer_setter),
{
    if target != GL_TEXTURE_2D {
        return false;
    }
    let table = tex_params();
    assert(table.entries() =~= tex_table());
    table.contains(pname) || (integer_setter && pname == GL_TEXTURE_MAX_LEVEL)
}

pub const GL_ALPHA: u32 = 0x1906;
pub const GL_LUMINANCE: u32 = 0x1909;
pub const GL_LUMINANCE_ALPHA: u32 = 0x190A;
pub const GL_BGRA: u32 = 0x80E1;

/// The internal formats of uncompressed textures: alpha, RGB, RGBA,
/// luminance and luminance-alpha.
pub open spec fn spec_is_internal_format(f: u32) -> bool {
    f == GL_ALPHA || f == GL_RGB || f == GL_RGBA || f == GL_LUMINANCE || f == GL_LUMINANCE_ALPHA
}

/// The formats of pixel data given for a texture: the internal formats, and
/// BGRA.
pub open spec fn spec_is_pixel_format(f: u32) -> bool {
    spec_is_internal_format(f) || f == GL_BGRA
}

/// The types of pixel data given for a texture: bytes, or 16-bit packed
/// pixels.
pub open spec fn spec_is_pixel_type(t: u32) -> bool {
    t == GL_UNSIGNED_BYTE || t == GL_UNSIGNED_SHORT_5_6_5 || t == GL_UNSIGNED_SHORT_4_4_4_4 || t == GL_UNSIGNED_SHORT_5_5_5_1
}

fn is_internal_format(f: u32) -> (b: bool)
    ensures
        b == spec_is_internal_format(f),
{
    f == GL_ALPHA || f == GL_RGB || f == GL_RGBA || f == GL_LUMINANCE || f == GL_LUMINANCE_ALPHA
}

/// What `glTexImage2D` accepts: a level of the 2D texture, an uncompressed
/// internal format, no border, and pixel data of a supported format and
/// type.
pub open spec fn tex_image_accepted(
    target: u32,
    level: i32,
    internalformat: u32,
    border: i32,
    format: u32,
    type_: u32,
) -> bool {
    &&& target == GL_TEXTURE_2D
    &&& level >= 0
    &&& spec_is_internal_format(internalformat)
    &&& border == 0
    &&& spec_is_pixel_format(format)
    &&& spec_is_pixel_type(type_)
}

/// Checks a `glTexImage2D` call (see [tex_image_accepted]).
pub fn tex_image_accepts(target: u32, level: i32, internalformat: u32, border: i32, format: u32, type_: u32) -> (ok:
    bool)
    ensures
        ok == tex_image_accepted(target, level, internalformat, border, format, type_),
{
    target == GL_TEXTURE_2D && level >= 0 && is_internal_format(internalformat) && border == 0
        && (is_internal_format(format) || format == GL_BGRA) && (type_ == GL_UNSIGNED_BYTE || type_ == GL_UNSIGNED_SHORT_5_6_5
        || type_ == GL_UNSIGNED_SHORT_4_4_4_4 || type_ == GL_UNSIGNED_SHORT_5_5_5_1)
}

/// What `glTexSubImage2D` accepts: a level of the 2D texture and pixel data
/// of a supported format and type.
pub open spec fn tex_sub_image_accepted(target: u32, level: i32, format: u32, type_: u32) -> bool {
    &&& target == GL_TEXTURE_2D
    &&& level >= 0
    &&& spec_is_pixel_format(format)
    &&& spec_is_pixel_type(type_)
}

/// Checks a `glTexSubImage2D` call (see [tex_sub_image_accepted]).
pub fn tex_sub_image_accepts(target: u32, level: i32, format: u32, type_: u32) -> (ok: bool)
    ensures
        ok == tex_sub_image_accepted(target, level, format, type_),
{
    target == GL_TEXTURE_2D && level >= 0 && (is_internal_format(format) || format == GL_BGRA) && (
    type_ == GL_UNSIGNED_BYTE || type_ == GL_UNSIGNED_SHORT_5_6_5 || type_ == GL_UNSIGNED_SHORT_4_4_4_4 || type_ == GL_UNSIGNED_SHORT_5_5_5_1)
}

/// What `glCopyTexImage2D` accepts: a level of the 2D texture, an
/// uncompressed internal format and no border.
pub open spec fn copy_tex_image_accepted(target: u32, level: i32, internalformat: u32, border: i32) -> bool {
    &&& target == GL_TEXTURE_2D
    &&& level >= 0
    &&& spec_is_internal_format(internalformat)
    &&& border == 0
}

/// Checks a `glCopyTexImage2D` call (see [copy_tex_image_accepted]).
pub fn copy_tex_image_accepts(target: u32, level: i32, internalformat: u32, border: i32) -> (ok: bool)
    ensures
        ok == copy_tex_image_accepted(target, level, internalformat, border),
{
    target == GL_TEXTURE_2D && level >= 0 && is_internal_format(internalformat) && border == 0
}

/// `glGetPointerv` accepts the pointer enum of one of the vertex arrays.
pub fn is_array_pointer(pname: u32) -> (b: bool)
    ensures
        b == array_pointers().contains(pname),
{
    let a = arrays();
    let mut i: usize = 0;
    while i < a.len()
        invariant
            a@.len() == ARRAY_COUNT,
            forall|j: int| 0 <= j < ARRAY_COUNT ==> #[trigger] a@[j].pointer == array_pointers()[j],
            i <= ARRAY_COUNT,
            forall|j: int| 0 <= j < i ==> array_pointers()[j] != pname,
        decreases ARRAY_COUNT - i,
    {
        if a[i].pointer == pname {
            assert(array_pointers()[i as int] == pname);
            return true;
        }
        i = i + 1;
    }
    false
}

/// What `glGetTexEnviv` (`float` false) and `glGetTexEnvfv` (`float` true)
/// accept: the `GL_TEXTURE_ENV` target and a parameter of
/// [tex_env_params] of the integer or floating-point type respectively.
pub open spec fn tex_env_get_accepted(target: u32, pname: u32, float: bool) -> bool {
    &&& target == GL_TEXTURE_ENV
    &&& param_lookup(tex_env_table(), pname) matches Some(info)
    &&& info.0 == (if float {
        ParamType::Float
    } else {
        ParamType::Int
    })
}

/// Checks a `glGetTexEnv` call (see [tex_env_get_accepted]).
pub fn tex_env_get_accepts(target: u32, pname: u32, float: bool) -> (ok: bool)
    ensures
        ok == tex_env_get_accepted(target, pname, float),
{
    if target != GL_TEXTURE_ENV {
        return false;
    }
    let table = tex_env_params();
    assert(table.entries() =~= tex_env_table());
    if !table.contains(pname) {
        return false;
    }
    let (type_, _count) = table.get_type_info(pname);
    if float {
        type_ == ParamType::Float
    } else {
        type_ == ParamType::Int
    }
}

pub const GL_ACTIVE_TEXTURE: u32 = 0x84E0;
pub const GL_ALIASED_POINT_SIZE_RANGE: u32 = 0x846D;
pub const GL_ALIASED_LINE_WIDTH_RANGE: u32 = 0x846E;
pub const GL_ALPHA_BITS: u32 = 0x0D55;
pub const GL_ALPHA_TEST_FUNC: u32 = 0x0BC1;
pub const GL_ARRAY_BUFFER_BINDING: u32 = 0x8894;
pub const GL_BLEND_DST: u32 = 0x0BE0;
pub const GL_BLEND_SRC: u32 = 0x0BE1;
pub const GL_BLUE_BITS: u32 = 0x0D54;
pub const GL_CLIENT_ACTIVE_TEXTURE: u32 = 0x84E1;
pub const GL_COLOR_ARRAY_TYPE: u32 = 0x8082;
pub const GL_COLOR_CLEAR_VALUE: u32 = 0x0C22;
pub const GL_COLOR_WRITEMASK: u32 = 0x0C23;
pub const GL_CULL_FACE_MODE: u32 = 0x0B45;
pub const GL_CURRENT_COLOR: u32 = 0x0B00;
pub const GL_CURRENT_TEXTURE_COORDS: u32 = 0x0B03;
pub const GL_DEPTH_BITS: u32 = 0x0D56;
pub const GL_DEPTH_FUNC: u32 = 0x0B74;
pub const GL_DEPTH_WRITEMASK: u32 = 0x0B72;
pub const GL_ELEMENT_ARRAY_BUFFER_BINDING: u32 = 0x8895;
pub const GL_FRONT_FACE: u32 = 0x0B46;
pub const GL_GREEN_BITS: u32 = 0x0D53;
pub const GL_LINE_WIDTH: u32 = 0x0B21;
pub const GL_LOGIC_OP_MODE: u32 = 0x0BF0;
pub const GL_MATRIX_MODE: u32 = 0x0BA0;
pub const GL_MAX_CLIP_PLANES: u32 = 0x0D32;
pub const GL_MAX_LIGHTS: u32 = 0x0D31;
pub const GL_MAX_MODELVIEW_STACK_DEPTH: u32 = 0x0D36;
pub const GL_MAX_PROJECTION_STACK_DEPTH: u32 = 0x0D38;
pub const GL_MAX_TEXTURE_STACK_DEPTH: u32 = 0x0D39;
pub const GL_MAX_TEXTURE_UNITS: u32 = 0x84E2;
pub const GL_MAX_VIEWPORT_DIMS: u32 = 0x0D3A;
pub const GL_MODELVIEW_MATRIX: u32 = 0x0BA6;
pub const GL_MODELVIEW_STACK_DEPTH: u32 = 0x0BA3;
pub const GL_NORMAL_ARRAY_TYPE: u32 = 0x807E;
pub const GL_PACK_ALIGNMENT: u32 = 0x0D05;
pub const GL_POINT_SIZE: u32 = 0x0B11;
pub const GL_POINT_SIZE_RANGE: u32 = 0x0B12;
pub const GL_POLYGON_OFFSET_FACTOR: u32 = 0x8038;
pub const GL_POLYGON_OFFSET_UNITS: u32 = 0x2A00;
pub const GL_PROJECTION_MATRIX: u32 = 0x0BA7;
pub const GL_PROJECTION_STACK_DEPTH: u32 = 0x0BA4;
pub const GL_RED_BITS: u32 = 0x0D52;
pub const GL_SAMPLE_BUFFERS: u32 = 0x80A8;
pub const GL_SAMPLE_COVERAGE_INVERT: u32 = 0x80AB;
pub const GL_SAMPLE_COVERAGE_VALUE: u32 = 0x80AA;
pub const GL_SAMPLES: u32 = 0x80A9;
pub const GL_SCISSOR_BOX: u32 = 0x0C10;
pub const GL_SHADE_MODEL: u32 = 0x0B54;
pub const GL_SMOOTH_LINE_WIDTH_RANGE: u32 = 0x0B22;
pub const GL_SMOOTH_POINT_SIZE_RANGE: u32 = 0x0B12;
pub const GL_STENCIL_BITS: u32 = 0x0D57;
pub const GL_STENCIL_CLEAR_VALUE: u32 = 0x0B91;
pub const GL_STENCIL_FAIL: u32 = 0x0B94;
pub const GL_STENCIL_FUNC: u32 = 0x0B92;
pub const GL_STENCIL_PASS_DEPTH_FAIL: u32 = 0x0B95;
pub const GL_STENCIL_PASS_DEPTH_PASS: u32 = 0x0B96;
pub const GL_STENCIL_REF: u32 = 0x0B97;
pub const GL_STENCIL_VALUE_MASK: u32 = 0x0B93;
pub const GL_STENCIL_WRITEMASK: u32 = 0x0B98;
pub const GL_SUBPIXEL_BITS: u32 = 0x0D50;
pub const GL_TEXTURE_BINDING_2D: u32 = 0x8069;
pub const GL_TEXTURE_COORD_ARRAY_TYPE: u32 = 0x8089;
pub const GL_TEXTURE_MATRIX: u32 = 0x0BA8;
pub const GL_TEXTURE_STACK_DEPTH: u32 = 0x0BA5;
pub const GL_UNPACK_ALIGNMENT: u32 = 0x0CF5;
pub const GL_VIEWPORT: u32 = 0x0BA2;
pub const GL_VERTEX_ARRAY_TYPE: u32 = 0x807B;
pub const GL_FRAMEBUFFER_BINDING_EXT: u32 = 0x8CA6;
pub const GL_RENDERBUFFER_BINDING_EXT: u32 = 0x8CA7;
pub const GL_MAX_TEXTURE_LOD_BIAS_EXT: u32 = 0x84FD;
pub const GL_MAX_PALETTE_MATRICES_ARB: u32 = 0x8842;
pub const GL_MAX_VERTEX_UNITS_ARB: u32 = 0x86A4;
pub const GL_COMPRESSED_TEXTURE_FORMATS: u32 = 0x86A3;

/// The entries of [query_params].
pub open spec fn query_table() -> Seq<(u32, ParamType, usize)> {
    seq![
        (GL_ACTIVE_TEXTURE, ParamType::Int, 1usize),
        (GL_ALIASED_POINT_SIZE_RANGE, ParamType::Float, 2usize),
        (GL_ALIASED_LINE_WIDTH_RANGE, ParamType::Float, 2usize),
        (GL_ALPHA_BITS, ParamType::Int, 1usize),
        (GL_ALPHA_TEST, ParamType::Boolean, 1usize),
        (GL_ALPHA_TEST_FUNC, ParamType::Int, 1usize),
        (GL_ARRAY_BUFFER_BINDING, ParamType::Int, 1usize),
        (GL_BLEND, ParamType::Boolean, 1usize),
        (GL_BLEND_DST, ParamType::Int, 1usize),
        (GL_BLEND_SRC, ParamType::Int, 1usize),
        (GL_BLUE_BITS, ParamType::Int, 1usize),
        (GL_CLIENT_ACTIVE_TEXTURE, ParamType::Int, 1usize),
        (GL_CLIP_PLANE0, ParamType::Boolean, 1usize),
        (GL_CLIP_PLANE1, ParamType::Boolean, 1usize),
        (GL_CLIP_PLANE2, ParamType::Boolean, 1usize),
        (GL_CLIP_PLANE3, ParamType::Boolean, 1usize),
        (GL_CLIP_PLANE4, ParamType::Boolean, 1usize),
        (GL_CLIP_PLANE5, ParamType::Boolean, 1usize),
        (GL_COLOR_ARRAY, ParamType::Boolean, 1usize),
        (GL_COLOR_ARRAY_BUFFER_BINDING, ParamType::Int, 1usize),
        (GL_COLOR_ARRAY_SIZE, ParamType::Int, 1usize),
        (GL_COLOR_ARRAY_STRIDE, ParamType::Int, 1usize),
        (GL_COLOR_ARRAY_TYPE, ParamType::Int, 1usize),
        (GL_COLOR_CLEAR_VALUE, ParamType::FloatSpecial, 4usize),
        (GL_COLOR_LOGIC_OP, ParamType::Boolean, 1usize),
        (GL_COLOR_MATERIAL, ParamType::Boolean, 1usize),
        (GL_COLOR_WRITEMASK, ParamType::Boolean, 4usize),
        (GL_CULL_FACE, ParamType::Boolean, 1usize),
        (GL_CULL_FACE_MODE, ParamType::Int, 1usize),
        (GL_CURRENT_COLOR, ParamType::FloatSpecial, 4usize),
        (GL_CURRENT_TEXTURE_COORDS, ParamType::Float, 4usize),
        (GL_DEPTH_BITS, ParamType::Int, 1usize),
        (GL_DEPTH_FUNC, ParamType::Int, 1usize),
        (GL_DEPTH_TEST, ParamType::Boolean, 1usize),
        (GL_DEPTH_WRITEMASK, ParamType::Boolean, 1usize),
        (GL_DITHER, ParamType::Boolean, 1usize),
        (GL_ELEMENT_ARRAY_BUFFER_BINDING, ParamType::Int, 1usize),
        (GL_FOG, ParamType::Boolean, 1usize),
        (GL_FOG_HINT, ParamType::Int, 1usize),
        (GL_FOG_MODE, ParamType::Int, 1usize),
        (GL_FOG_DENSITY, ParamType::Float, 1usize),
        (GL_FOG_START, ParamType::Float, 1usize),
        (GL_FOG_END, ParamType::Float, 1usize),
        (GL_FRONT_FACE, ParamType::Int, 1usize),
        (GL_GREEN_BITS, ParamType::Int, 1usize),
        (GL_LIGHT_MODEL_TWO_SIDE, ParamType::Boolean, 1usize),
        (GL_LIGHT0, ParamType::Boolean, 1usize),
        (GL_LIGHT1, ParamType::Boolean, 1usize),
        (GL_LIGHT2, ParamType::Boolean, 1usize),
        (GL_LIGHT3, ParamType::Boolean, 1usize),
        (GL_LIGHT4, ParamType::Boolean, 1usize),
        (GL_LIGHT5, ParamType::Boolean, 1usize),
        (GL_LIGHT6, ParamType::Boolean, 1usize),
        (GL_LIGHT7, ParamType::Boolean, 1usize),
        (GL_LIGHTING, ParamType::Boolean, 1usize),
        (GL_LINE_SMOOTH, ParamType::Boolean, 1usize),
        (GL_LINE_SMOOTH_HINT, ParamType::Int, 1usize),
        (GL_LINE_WIDTH, ParamType::Float, 1usize),
        (GL_LOGIC_OP_MODE, ParamType::Int, 1usize),
        (GL_MATRIX_MODE, ParamType::Int, 1usize),
        (GL_MAX_CLIP_PLANES, ParamType::Int, 1usize),
        (GL_MAX_LIGHTS, ParamType::Int, 1usize),
        (GL_MAX_MODELVIEW_STACK_DEPTH, ParamType::Int, 1usize),
        (GL_MAX_PROJECTION_STACK_DEPTH, ParamType::Int, 1usize),
        (GL_MAX_TEXTURE_MAX_ANISOTROPY_EXT, ParamType::Float, 1usize),
        (GL_MAX_TEXTURE_SIZE, ParamType::Int, 1usize),
        (GL_MAX_TEXTURE_STACK_DEPTH, ParamType::Int, 1usize),
        (GL_MAX_TEXTURE_UNITS, ParamType::Int, 1usize),
        (GL_MAX_VIEWPORT_DIMS, ParamType::Int, 1usize),
        (GL_MODELVIEW_MATRIX, ParamType::Float, 16usize),
        (GL_MODELVIEW_STACK_DEPTH, ParamType::Int, 1usize),
        (GL_MULTISAMPLE, ParamType::Boolean, 1usize),
        (GL_NORMAL_ARRAY, ParamType::Boolean, 1usize),
        (GL_NORMAL_ARRAY_BUFFER_BINDING, ParamType::Int, 1usize),
        (GL_NORMAL_ARRAY_STRIDE, ParamType::Int, 1usize),
        (GL_NORMAL_ARRAY_TYPE, ParamType::Int, 1usize),
        (GL_NORMALIZE, ParamType::Boolean, 1usize),
        (GL_PACK_ALIGNMENT, ParamType::Int, 1usize),
        (GL_PERSPECTIVE_CORRECTION_HINT, ParamType::Int, 1usize),
        (GL_POINT_DISTANCE_ATTENUATION, ParamType::Float, 3usize),
        (GL_POINT_FADE_THRESHOLD_SIZE, ParamType::Float, 1usize),
        (GL_POINT_SIZE, ParamType::Float, 1usize),
        (GL_POINT_SIZE_MAX, ParamType::Float, 1usize),
        (GL_POINT_SIZE_MIN, ParamType::Float, 1usize),
        (GL_POINT_SIZE_RANGE, ParamType::Float, 2usize),
        (GL_POINT_SMOOTH, ParamType::Boolean, 2usize),
        (GL_POINT_SMOOTH_HINT, ParamType::Int, 2usize),
        (GL_POINT_SPRITE, ParamType::Boolean, 1usize),
        (GL_POLYGON_OFFSET_FACTOR, ParamType::Float, 1usize),
        (GL_POLYGON_OFFSET_FILL, ParamType::Boolean, 1usize),
        (GL_POLYGON_OFFSET_UNITS, ParamType::Float, 1usize),
        (GL_PROJECTION_MATRIX, ParamType::Float, 16usize),
        (GL_PROJECTION_STACK_DEPTH, ParamType::Int, 1usize),
        (GL_RED_BITS, ParamType::Int, 1usize),
        (GL_RESCALE_NORMAL, ParamType::Boolean, 1usize),
        (GL_SAMPLE_ALPHA_TO_COVERAGE, ParamType::Boolean, 1usize),
        (GL_SAMPLE_ALPHA_TO_ONE, ParamType::Boolean, 1usize),
        (GL_SAMPLE_BUFFERS, ParamType::Int, 1usize),
        (GL_SAMPLE_COVERAGE, ParamType::Boolean, 1usize),
        (GL_SAMPLE_COVERAGE_INVERT, ParamType::Boolean, 1usize),
        (GL_SAMPLE_COVERAGE_VALUE, ParamType::Float, 1usize),
        (GL_SAMPLES, ParamType::Int, 1usize),
        (GL_SCISSOR_BOX, ParamType::Int, 4usize),
        (GL_SCISSOR_TEST, ParamType::Boolean, 1usize),
        (GL_SHADE_MODEL, ParamType::Int, 1usize),
        (GL_SMOOTH_LINE_WIDTH_RANGE, ParamType::Float, 2usize),
        (GL_SMOOTH_POINT_SIZE_RANGE, ParamType::Float, 2usize),
        (GL_STENCIL_BITS, ParamType::Int, 1usize),
        (GL_STENCIL_CLEAR_VALUE, ParamType::Int, 1usize),
        (GL_STENCIL_FAIL, ParamType::Int, 1usize),
        (GL_STENCIL_FUNC, ParamType::Int, 1usize),
        (GL_STENCIL_PASS_DEPTH_FAIL, ParamType::Int, 1usize),
        (GL_STENCIL_PASS_DEPTH_PASS, ParamType::Int, 1usize),
        (GL_STENCIL_REF, ParamType::Int, 1usize),
        (GL_STENCIL_TEST, ParamType::Boolean, 1usize),
        (GL_STENCIL_VALUE_MASK, ParamType::Int, 1usize),
        (GL_STENCIL_WRITEMASK, ParamType::Int, 1usize),
        (GL_SUBPIXEL_BITS, ParamType::Int, 1usize),
        (GL_TEXTURE_2D, ParamType::Boolean, 1usize),
        (GL_TEXTURE_BINDING_2D, ParamType::Int, 1usize),
        (GL_TEXTURE_COORD_ARRAY, ParamType::Boolean, 1usize),
        (GL_TEXTURE_COORD_ARRAY_BUFFER_BINDING, ParamType::Int, 1usize),
        (GL_TEXTURE_COORD_ARRAY_SIZE, ParamType::Int, 1usize),
        (GL_TEXTURE_COORD_ARRAY_STRIDE, ParamType::Int, 1usize),
        (GL_TEXTURE_COORD_ARRAY_TYPE, ParamType::Int, 1usize),
        (GL_TEXTURE_MATRIX, ParamType::Float, 16usize),
        (GL_TEXTURE_STACK_DEPTH, ParamType::Int, 1usize),
        (GL_UNPACK_ALIGNMENT, ParamType::Int, 1usize),
        (GL_VIEWPORT, ParamType::Int, 4usize),
        (GL_VERTEX_ARRAY, ParamType::Boolean, 1usize),
        (GL_VERTEX_ARRAY_BUFFER_BINDING, ParamType::Int, 1usize),
        (GL_VERTEX_ARRAY_SIZE, ParamType::Int, 1usize),
        (GL_VERTEX_ARRAY_STRIDE, ParamType::Int, 1usize),
        (GL_VERTEX_ARRAY_TYPE, ParamType::Int, 1usize),
        (GL_FRAMEBUFFER_BINDING_EXT, ParamType::Int, 1usize),
        (GL_RENDERBUFFER_BINDING_EXT, ParamType::Int, 1usize),
        (GL_MAX_TEXTURE_LOD_BIAS_EXT, ParamType::Float, 1usize),
        (GL_MAX_PALETTE_MATRICES_ARB, ParamType::Int, 1usize),
        (GL_MAX_VERTEX_UNITS_ARB, ParamType::Int, 1usize),
    ]
}

/// The table of the parameters that `glGetBooleanv`, `glGetFloatv` and
/// `glGetIntegerv` answer, shared by OpenGL ES 1.1 and OpenGL 2.1.
/// `GL_COMPRESSED_TEXTURE_FORMATS` is left out: its size depends on the
/// formats supported.
pub fn query_params() -> (t: ParamTable)
    ensures
        t.entries() == query_table(),
{
    ParamTable(
        vec![
            (GL_ACTIVE_TEXTURE, ParamType::Int, 1usize),
            (GL_ALIASED_POINT_SIZE_RANGE, ParamType::Float, 2usize),
            (GL_ALIASED_LINE_WIDTH_RANGE, ParamType::Float, 2usize),
            (GL_ALPHA_BITS, ParamType::Int, 1usize),
            (GL_ALPHA_TEST, ParamType::Boolean, 1usize),
            (GL_ALPHA_TEST_FUNC, ParamType::Int, 1usize),
            (GL_ARRAY_BUFFER_BINDING, ParamType::Int, 1usize),
            (GL_BLEND, ParamType::Boolean, 1usize),
            (GL_BLEND_DST, ParamType::Int, 1usize),
            (GL_BLEND_SRC, ParamType::Int, 1usize),
            (GL_BLUE_BITS, ParamType::Int, 1usize),
            (GL_CLIENT_ACTIVE_TEXTURE, ParamType::Int, 1usize),
            (GL_CLIP_PLANE0, ParamType::Boolean, 1usize),
            (GL_CLIP_PLANE1, ParamType::Boolean, 1usize),
            (GL_CLIP_PLANE2, ParamType::Boolean, 1usize),
            (GL_CLIP_PLANE3, ParamType::Boolean, 1usize),
            (GL_CLIP_PLANE4, ParamType::Boolean, 1usize),
            (GL_CLIP_PLANE5, ParamType::Boolean, 1usize),
            (GL_COLOR_ARRAY, ParamType::Boolean, 1usize),
            (GL_COLOR_ARRAY_BUFFER_BINDING, ParamType::Int, 1usize),
            (GL_COLOR_ARRAY_SIZE, ParamType::Int, 1usize),
            (GL_COLOR_ARRAY_STRIDE, ParamType::Int, 1usize),
            (GL_COLOR_ARRAY_TYPE, ParamType::Int, 1usize),
            (GL_COLOR_CLEAR_VALUE, ParamType::FloatSpecial, 4usize),
            (GL_COLOR_LOGIC_OP, ParamType::Boolean, 1usize),
            (GL_COLOR_MATERIAL, ParamType::Boolean, 1usize),
            (GL_COLOR_WRITEMASK, ParamType::Boolean, 4usize),
            (GL_CULL_FACE, ParamType::Boolean, 1usize),
            (GL_CULL_FACE_MODE, ParamType::Int, 1usize),
            (GL_CURRENT_COLOR, ParamType::FloatSpecial, 4usize),
            (GL_CURRENT_TEXTURE_COORDS, ParamType::Float, 4usize),
            (GL_DEPTH_BITS, ParamType::Int, 1usize),
            (GL_DEPTH_FUNC, ParamType::Int, 1usize),
            (GL_DEPTH_TEST, ParamType::Boolean, 1usize),
            (GL_DEPTH_WRITEMASK, ParamType::Boolean, 1usize),
            (GL_DITHER, ParamType::Boolean, 1usize),
            (GL_ELEMENT_ARRAY_BUFFER_BINDING, ParamType::Int, 1usize),
            (GL_FOG, ParamType::Boolean, 1usize),
            (GL_FOG_HINT, ParamType::Int, 1usize),
            (GL_FOG_MODE, ParamType::Int, 1usize),
            (GL_FOG_DENSITY, ParamType::Float, 1usize),
            (GL_FOG_START, ParamType::Float, 1usize),
            (GL_FOG_END, ParamType::Float, 1usize),
            (GL_FRONT_FACE, ParamType::Int, 1usize),
            (GL_GREEN_BITS, ParamType::Int, 1usize),
            (GL_LIGHT_MODEL_TWO_SIDE, ParamType::Boolean, 1usize),
            (GL_LIGHT0, ParamType::Boolean, 1usize),
            (GL_LIGHT1, ParamType::Boolean, 1usize),
            (GL_LIGHT2, ParamType::Boolean, 1usize),
            (GL_LIGHT3, ParamType::Boolean, 1usize),
            (GL_LIGHT4, ParamType::Boolean, 1usize),
            (GL_LIGHT5, ParamType::Boolean, 1usize),
            (GL_LIGHT6, ParamType::Boolean, 1usize),
            (GL_LIGHT7, ParamType::Boolean, 1usize),
            (GL_LIGHTING, ParamType::Boolean, 1usize),
            (GL_LINE_SMOOTH, ParamType::Boolean, 1usize),
            (GL_LINE_SMOOTH_HINT, ParamType::Int, 1usize),
            (GL_LINE_WIDTH, ParamType::Float, 1usize),
            (GL_LOGIC_OP_MODE, ParamType::Int, 1usize),
            (GL_MATRIX_MODE, ParamType::Int, 1usize),
            (GL_MAX_CLIP_PLANES, ParamType::Int, 1usize),
            (GL_MAX_LIGHTS, ParamType::Int, 1usize),
            (GL_MAX_MODELVIEW_STACK_DEPTH, ParamType::Int, 1usize),
            (GL_MAX_PROJECTION_STACK_DEPTH, ParamType::Int, 1usize),
            (GL_MAX_TEXTURE_MAX_ANISOTROPY_EXT, ParamType::Float, 1usize),
            (GL_MAX_TEXTURE_SIZE, ParamType::Int, 1usize),
            (GL_MAX_TEXTURE_STACK_DEPTH, ParamType::Int, 1usize),
            (GL_MAX_TEXTURE_UNITS, ParamType::Int, 1usize),
            (GL_MAX_VIEWPORT_DIMS, ParamType::Int, 1usize),
            (GL_MODELVIEW_MATRIX, ParamType::Float, 16usize),
            (GL_MODELVIEW_STACK_DEPTH, ParamType::Int, 1usize),
            (GL_MULTISAMPLE, ParamType::Boolean, 1usize),
            (GL_NORMAL_ARRAY, ParamType::Boolean, 1usize),
            (GL_NORMAL_ARRAY_BUFFER_BINDING, ParamType::Int, 1usize),
            (GL_NORMAL_ARRAY_STRIDE, ParamType::Int, 1usize),
            (GL_NORMAL_ARRAY_TYPE, ParamType::Int, 1usize),
            (GL_NORMALIZE, ParamType::Boolean, 1usize),
            (GL_PACK_ALIGNMENT, ParamType::Int, 1usize),
            (GL_PERSPECTIVE_CORRECTION_HINT, ParamType::Int, 1usize),
            (GL_POINT_DISTANCE_ATTENUATION, ParamType::Float, 3usize),
            (GL_POINT_FADE_THRESHOLD_SIZE, ParamType::Float, 1usize),
            (GL_POINT_SIZE, ParamType::Float, 1usize),
            (GL_POINT_SIZE_MAX, ParamType::Float, 1usize),
            (GL_POINT_SIZE_MIN, ParamType::Float, 1usize),
            (GL_POINT_SIZE_RANGE, ParamType::Float, 2usize),
            (GL_POINT_SMOOTH, ParamType::Boolean, 2usize),
            (GL_POINT_SMOOTH_HINT, ParamType::Int, 2usize),
            (GL_POINT_SPRITE, ParamType::Boolean, 1usize),
            (GL_POLYGON_OFFSET_FACTOR, ParamType::Float, 1usize),
            (GL_POLYGON_OFFSET_FILL, ParamType::Boolean, 1usize),
            (GL_POLYGON_OFFSET_UNITS, ParamType::Float, 1usize),
            (GL_PROJECTION_MATRIX, ParamType::Float, 16usize),
            (GL_PROJECTION_STACK_DEPTH, ParamType::Int, 1usize),
            (GL_RED_BITS, ParamType::Int, 1usize),
            (GL_RESCALE_NORMAL, ParamType::Boolean, 1usize),
            (GL_SAMPLE_ALPHA_TO_COVERAGE, ParamType::Boolean, 1usize),
            (GL_SAMPLE_ALPHA_TO_ONE, ParamType::Boolean, 1usize),
            (GL_SAMPLE_BUFFERS, ParamType::Int, 1usize),
            (GL_SAMPLE_COVERAGE, ParamType::Boolean, 1usize),
            (GL_SAMPLE_COVERAGE_INVERT, ParamType::Boolean, 1usize),
            (GL_SAMPLE_COVERAGE_VALUE, ParamType::Float, 1usize),
            (GL_SAMPLES, ParamType::Int, 1usize),
            (GL_SCISSOR_BOX, ParamType::Int, 4usize),
            (GL_SCISSOR_TEST, ParamType::Boolean, 1usize),
            (GL_SHADE_MODEL, ParamType::Int, 1usize),
            (GL_SMOOTH_LINE_WIDTH_RANGE, ParamType::Float, 2usize),
            (GL_SMOOTH_POINT_SIZE_RANGE, ParamType::Float, 2usize),
            (GL_STENCIL_BITS, ParamType::Int, 1usize),
            (GL_STENCIL_CLEAR_VALUE, ParamType::Int, 1usize),
            (GL_STENCIL_FAIL, ParamType::Int, 1usize),
            (GL_STENCIL_FUNC, ParamType::Int, 1usize),
            (GL_STENCIL_PASS_DEPTH_FAIL, ParamType::Int, 1usize),
            (GL_STENCIL_PASS_DEPTH_PASS, ParamType::Int, 1usize),
            (GL_STENCIL_REF, ParamType::Int, 1usize),
            (GL_STENCIL_TEST, ParamType::Boolean, 1usize),
            (GL_STENCIL_VALUE_MASK, ParamType::Int, 1usize),
            (GL_STENCIL_WRITEMASK, ParamType::Int, 1usize),
            (GL_SUBPIXEL_BITS, ParamType::Int, 1usize),
            (GL_TEXTURE_2D, ParamType::Boolean, 1usize),
            (GL_TEXTURE_BINDING_2D, ParamType::Int, 1usize),
            (GL_TEXTURE_COORD_ARRAY, ParamType::Boolean, 1usize),
            (GL_TEXTURE_COORD_ARRAY_BUFFER_BINDING, ParamType::Int, 1usize),
            (GL_TEXTURE_COORD_ARRAY_SIZE, ParamType::Int, 1usize),
            (GL_TEXTURE_COORD_ARRAY_STRIDE, ParamType::Int, 1usize),
            (GL_TEXTURE_COORD_ARRAY_TYPE, ParamType::Int, 1usize),
            (GL_TEXTURE_MATRIX, ParamType::Float, 16usize),
            (GL_TEXTURE_STACK_DEPTH, ParamType::Int, 1usize),
            (GL_UNPACK_ALIGNMENT, ParamType::Int, 1usize),
            (GL_VIEWPORT, ParamType::Int, 4usize),
            (GL_VERTEX_ARRAY, ParamType::Boolean, 1usize),
            (GL_VERTEX_ARRAY_BUFFER_BINDING, ParamType::Int, 1usize),
            (GL_VERTEX_ARRAY_SIZE, ParamType::Int, 1usize),
            (GL_VERTEX_ARRAY_STRIDE, ParamType::Int, 1usize),
            (GL_VERTEX_ARRAY_TYPE, ParamType::Int, 1usize),
            (GL_FRAMEBUFFER_BINDING_EXT, ParamType::Int, 1usize),
            (GL_RENDERBUFFER_BINDING_EXT, ParamType::Int, 1usize),
            (GL_MAX_TEXTURE_LOD_BIAS_EXT, ParamType::Float, 1usize),
            (GL_MAX_PALETTE_MATRICES_ARB, ParamType::Int, 1usize),
            (GL_MAX_VERTEX_UNITS_ARB, ParamType::Int, 1usize),
        ],
    )
}

/// What `glGetBooleanv` accepts: a parameter of [query_params] of boolean
/// type.
pub open spec fn get_boolean_accepted(pname: u32) -> bool {
    param_lookup(query_table(), pname) matches Some(info) && info.0 == ParamType::Boolean
}

/// What `glGetFloatv` accepts: a parameter of [query_params] of
/// floating-point type.
pub open spec fn get_float_accepted(pname: u32) -> bool {
    param_lookup(query_table(), pname) matches Some(info) && (info.0 == ParamType::Float || info.0
        == ParamType::FloatSpecial)
}

/// What `glGetIntegerv` accepts: a parameter of [query_params] of integer
/// type, or `GL_POINT_SIZE_MAX`, which is read as an integer too.
pub open spec fn get_integer_accepted(pname: u32) -> bool {
    param_lookup(query_table(), pname) matches Some(info) && (info.0 == ParamType::Int || (info.0
        == ParamType::Float && pname == GL_POINT_SIZE_MAX))
}

/// Which `glGet` call.
#[derive(Copy, Clone, Debug, PartialEq, Eq, Structural)]
pub enum QueryKind {
    Boolean,
    Float,
    Integer,
}

/// Checks a `glGetBooleanv`, `glGetFloatv` or `glGetIntegerv` call (see
/// [get_boolean_accepted], [get_float_accepted] and [get_integer_accepted]).
pub fn query_accepts(kind: QueryKind, pname: u32) -> (ok: bool)
    ensures
        ok == match kind {
            QueryKind::Boolean => get_boolean_accepted(pname),
            QueryKind::Float => get_float_accepted(pname),
            QueryKind::Integer => get_integer_accepted(pname),
        },
{
    let table = query_params();
    assert(table.entries() =~= query_table());
    if !table.contains(pname) {
        return false;
    }
    let (type_, _count) = table.get_type_info(pname);
    match kind {
        QueryKind::Boolean => type_ == ParamType::Boolean,
        QueryKind::Float => type_ == ParamType::Float || type_ == ParamType::FloatSpecial,
        QueryKind::Integer => type_ == ParamType::Int || (type_ == ParamType::Float && pname
            == GL_POINT_SIZE_MAX),
    }
}

/// What `glDisable` accepts: a capability; also tolerated, as apps pass
/// them, a vertex array, `GL_VERTEX_PROGRAM_NV` and `GL_TEXTURE` (which are
/// not supported capabilities), and any parameter that `glGet` answers.
pub open spec fn disable_accepted(cap: u32) -> bool {
    ||| capability_list().contains(cap)
    ||| array_names().contains(cap)
    ||| cap == GL_VERTEX_PROGRAM_NV || cap == GL_TEXTURE
    ||| param_lookup(query_table(), cap) is Some
    ||| cap == GL_COMPRESSED_TEXTURE_FORMATS
}

/// Checks a `glDisable` call (see [disable_accepted]).
pub fn disable_accepts(cap: u32) -> (ok: bool)
    ensures
        ok == disable_accepted(cap),
{
    if is_capability(cap) || is_array_name(cap) || cap == GL_VERTEX_PROGRAM_NV || cap == GL_TEXTURE
        || cap == GL_COMPRESSED_TEXTURE_FORMATS {
        return true;
    }
    let table = query_params();
    assert(table.entries() =~= query_table());
    table.contains(cap)
}

/// What `glIsEnabled` accepts: a capability or a vertex array.
pub fn is_enabled_accepts(cap: u32) -> (ok: bool)
    ensures
        ok == (capability_list().contains(cap) || array_names().contains(cap)),
{
    is_capability(cap) || is_array_name(cap)
}

} // verus!
