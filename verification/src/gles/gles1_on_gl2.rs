//! The bookkeeping of the OpenGL ES 1.1 on OpenGL 2.1 layer. OpenGL 2.1 has
//! no fixed-point vertex data, so the layer remembers which arrays were
//! given fixed-point data and converts them to floating point at each draw
//! call. Which arrays need converting, which range of vertices a draw call
//! touches, and where each fixed-point component lies, are decided here.
use vstd::prelude::*;
use crate::gles::util::{
    PalettedTextureFormat, GL_RGB, GL_RGBA, GL_UNSIGNED_SHORT_4_4_4_4,
    GL_UNSIGNED_SHORT_5_5_5_1, GL_UNSIGNED_SHORT_5_6_5,
};
use crate::mem::{le_u32, read_le_u32};

verus! {

pub const GL_BYTE: u32 = 0x1400;
pub const GL_UNSIGNED_BYTE: u32 = 0x1401;
pub const GL_SHORT: u32 = 0x1402;
pub const GL_UNSIGNED_SHORT: u32 = 0x1403;
pub const GL_FLOAT: u32 = 0x1406;
pub const GL_FIXED: u32 = 0x140C;

pub const GL_POINTS: u32 = 0x0000;
pub const GL_LINES: u32 = 0x0001;
pub const GL_LINE_LOOP: u32 = 0x0002;
pub const GL_LINE_STRIP: u32 = 0x0003;
pub const GL_TRIANGLES: u32 = 0x0004;
pub const GL_TRIANGLE_STRIP: u32 = 0x0005;
pub const GL_TRIANGLE_FAN: u32 = 0x0006;

pub const GL_VERTEX_ARRAY: u32 = 0x8074;
pub const GL_NORMAL_ARRAY: u32 = 0x8075;
pub const GL_COLOR_ARRAY: u32 = 0x8076;
pub const GL_TEXTURE_COORD_ARRAY: u32 = 0x8078;
pub const GL_VERTEX_ARRAY_SIZE: u32 = 0x807A;
pub const GL_VERTEX_ARRAY_STRIDE: u32 = 0x807C;
pub const GL_NORMAL_ARRAY_STRIDE: u32 = 0x807F;
pub const GL_COLOR_ARRAY_SIZE: u32 = 0x8081;
pub const GL_COLOR_ARRAY_STRIDE: u32 = 0x8083;
pub const GL_TEXTURE_COORD_ARRAY_SIZE: u32 = 0x8088;
pub const GL_TEXTURE_COORD_ARRAY_STRIDE: u32 = 0x808A;
pub const GL_VERTEX_ARRAY_POINTER: u32 = 0x808E;
pub const GL_NORMAL_ARRAY_POINTER: u32 = 0x808F;
pub const GL_COLOR_ARRAY_POINTER: u32 = 0x8090;
pub const GL_TEXTURE_COORD_ARRAY_POINTER: u32 = 0x8092;
pub const GL_VERTEX_ARRAY_BUFFER_BINDING: u32 = 0x8896;
pub const GL_NORMAL_ARRAY_BUFFER_BINDING: u32 = 0x8897;
pub const GL_COLOR_ARRAY_BUFFER_BINDING: u32 = 0x8898;
pub const GL_TEXTURE_COORD_ARRAY_BUFFER_BINDING: u32 = 0x889A;

/// Number of vertex arrays shared by OpenGL ES 1.1 and OpenGL 2.1.
pub const ARRAY_COUNT: usize = 4;
/// Index of each array in [arrays].
pub const COLOR: usize = 0;
pub const NORMAL: usize = 1;
pub const TEXTURE_COORD: usize = 2;
pub const VERTEX: usize = 3;

/// The enums through which one vertex array's state is read.
pub struct ArrayInfo {
    /// Enum used by `glEnableClientState`, `glDisableClientState` and
    /// `glGetBoolean`.
    pub name: u32,
    /// Buffer binding enum for `glGetInteger`.
    pub buffer_binding: u32,
    /// Size enum for `glGetInteger` (the normal array has no size).
    pub size: Option<u32>,
    /// Stride enum for `glGetInteger`.
    pub stride: u32,
    /// Pointer enum for `glGetPointer`.
    pub pointer: u32,
}

/// The names of the arrays, in the order of [arrays].
pub open spec fn array_names() -> Seq<u32> {
    seq![GL_COLOR_ARRAY, GL_NORMAL_ARRAY, GL_TEXTURE_COORD_ARRAY, GL_VERTEX_ARRAY]
}

/// The pointer enums of the arrays, in the order of [arrays].
pub open spec fn array_pointers() -> Seq<u32> {
    seq![
        GL_COLOR_ARRAY_POINTER,
        GL_NORMAL_ARRAY_POINTER,
        GL_TEXTURE_COORD_ARRAY_POINTER,
        GL_VERTEX_ARRAY_POINTER,
    ]
}

/// The arrays shared by OpenGL ES 1.1 and OpenGL 2.1: color, normal,
/// texture co-ordinates and vertex.
pub fn arrays() -> (a: Vec<ArrayInfo>)
    ensures
        a@.len() == ARRAY_COUNT,
        forall|i: int| 0 <= i < ARRAY_COUNT ==> #[trigger] a@[i].name == array_names()[i],
        forall|i: int| 0 <= i < ARRAY_COUNT ==> #[trigger] a@[i].pointer == array_pointers()[i],
        forall|i: int| 0 <= i < ARRAY_COUNT ==> (#[trigger] a@[i].size is None <==> i == NORMAL),
{
    vec![
        ArrayInfo {
            name: GL_COLOR_ARRAY,
            buffer_binding: GL_COLOR_ARRAY_BUFFER_BINDING,
            size: Some(GL_COLOR_ARRAY_SIZE),
            stride: GL_COLOR_ARRAY_STRIDE,
            pointer: GL_COLOR_ARRAY_POINTER,
        },
        ArrayInfo {
            name: GL_NORMAL_ARRAY,
            buffer_binding: GL_NORMAL_ARRAY_BUFFER_BINDING,
            size: None,
            stride: GL_NORMAL_ARRAY_STRIDE,
            pointer: GL_NORMAL_ARRAY_POINTER,
        },
        ArrayInfo {
            name: GL_TEXTURE_COORD_ARRAY,
            buffer_binding: GL_TEXTURE_COORD_ARRAY_BUFFER_BINDING,
            size: Some(GL_TEXTURE_COORD_ARRAY_SIZE),
            stride: GL_TEXTURE_COORD_ARRAY_STRIDE,
            pointer: GL_TEXTURE_COORD_ARRAY_POINTER,
        },
        ArrayInfo {
            name: GL_VERTEX_ARRAY,
            buffer_binding: GL_VERTEX_ARRAY_BUFFER_BINDING,
            size: Some(GL_VERTEX_ARRAY_SIZE),
            stride: GL_VERTEX_ARRAY_STRIDE,
            pointer: GL_VERTEX_ARRAY_POINTER,
        },
    ]
}

/// Which arrays hold fixed-point data. Texture co-ordinates have one
/// pointer per texture unit, so the units whose pointer is fixed-point are
/// kept too.
pub struct GLES1OnGL2State {
    pointer_is_fixed_point: [bool; 4],
    fixed_point_texture_units: Vec<u32>,
}

impl GLES1OnGL2State {
    /// Whether array `i` (see [arrays]) was given fixed-point data.
    pub closed spec fn is_fixed(&self, i: int) -> bool {
        self.pointer_is_fixed_point@[i]
    }

    /// The texture units whose co-ordinates are fixed-point.
    pub closed spec fn fixed_units(&self) -> Set<u32> {
        self.fixed_point_texture_units@.to_set()
    }

    /// The texture co-ordinates are flagged exactly while some unit's are
    /// fixed-point, and no unit is listed twice.
    pub closed spec fn wf(&self) -> bool {
        &&& self.fixed_point_texture_units@.no_duplicates()
        &&& self.is_fixed(TEXTURE_COORD as int) <==> self.fixed_point_texture_units@.len() > 0
    }

    /// No array holds fixed-point data.
    pub fn new() -> (s: GLES1OnGL2State)
        ensures
            s.wf(),
            forall|i: int| 0 <= i < ARRAY_COUNT ==> !#[trigger] s.is_fixed(i),
            s.fixed_units() == Set::<u32>::empty(),
    {
        let s = GLES1OnGL2State {
            pointer_is_fixed_point: [false, false, false, false],
            fixed_point_texture_units: Vec::new(),
        };
        assert(s.fixed_point_texture_units@.to_set() =~= Set::<u32>::empty());
        s
    }

    /// Whether any array holds fixed-point data.
    pub fn any_fixed_point(&self) -> (b: bool)
        ensures
            b == exists|i: int| 0 <= i < ARRAY_COUNT && #[trigger] self.is_fixed(i),
    {
        let b = self.pointer_is_fixed_point[0] || self.pointer_is_fixed_point[1]
            || self.pointer_is_fixed_point[2] || self.pointer_is_fixed_point[3];
        proof {
            if b {
                if self.is_fixed(0) {
                } else if self.is_fixed(1) {
                } else if self.is_fixed(2) {
                } else {
                    assert(self.is_fixed(3));
                }
            }
        }
        b
    }

    /// Whether array `i` needs converting at a draw call while
    /// `active_texture` is the active texture unit: it holds fixed-point
    /// data, and for texture co-ordinates, that unit's do.
    pub fn needs_translation(&self, i: usize, active_texture: u32) -> (b: bool)
        requires
            i < ARRAY_COUNT,
            self.wf(),
        ensures
            b == (self.is_fixed(i as int) && (i == TEXTURE_COORD ==> self.fixed_units().contains(
                active_texture,
            ))),
    {
        if !self.pointer_is_fixed_point[i] {
            return false;
        }
        if i != TEXTURE_COORD {
            return true;
        }
        self.unit_index(active_texture).is_some()
    }

    fn unit_index(&self, unit: u32) -> (idx: Option<usize>)
        ensures
            match idx {
                Some(k) => k < self.fixed_point_texture_units@.len()
                    && self.fixed_point_texture_units@[k as int] == unit,
                None => !self.fixed_point_texture_units@.contains(unit),
            },
            idx is Some <==> self.fixed_units().contains(unit),
    {
        let mut k: usize = 0;
        while k < self.fixed_point_texture_units.len()
            invariant
                k <= self.fixed_point_texture_units@.len(),
                forall|j: int| 0 <= j < k ==> self.fixed_point_texture_units@[j] != unit,
            decreases self.fixed_point_texture_units@.len() - k,
        {
            if self.fixed_point_texture_units[k] == unit {
                return Some(k);
            }
            k = k + 1;
        }
        None
    }

    /// `glColorPointer`: records whether the color data is fixed-point and
    /// returns the type to give OpenGL 2.1 (fixed-point data is handed over
    /// converted to floats).
    pub fn color_pointer(&mut self, size: i32, type_: u32) -> (gl_type: u32)
        requires
            old(self).wf(),
            size == 4,
            type_ == GL_FIXED || type_ == GL_UNSIGNED_BYTE || type_ == GL_FLOAT,
        ensures
            final(self).wf(),
            gl_type == if type_ == GL_FIXED { GL_FLOAT } else { type_ },
            final(self).is_fixed(COLOR as int) == (type_ == GL_FIXED),
            forall|i: int| 0 <= i < ARRAY_COUNT && i != COLOR ==> #[trigger] final(self).is_fixed(i) == old(self).is_fixed(i),
            final(self).fixed_units() == old(self).fixed_units(),
    {
        self.set_flag(COLOR, type_ == GL_FIXED);
        if type_ == GL_FIXED { GL_FLOAT } else { type_ }
    }

    /// `glNormalPointer`, as [Self::color_pointer].
    pub fn normal_pointer(&mut self, type_: u32) -> (gl_type: u32)
        requires
            old(self).wf(),
            type_ == GL_FIXED || type_ == GL_BYTE || type_ == GL_SHORT || type_ == GL_FLOAT,
        ensures
            final(self).wf(),
            gl_type == if type_ == GL_FIXED { GL_FLOAT } else { type_ },
            final(self).is_fixed(NORMAL as int) == (type_ == GL_FIXED),
            forall|i: int| 0 <= i < ARRAY_COUNT && i != NORMAL ==> #[trigger] final(self).is_fixed(i) == old(self).is_fixed(i),
            final(self).fixed_units() == old(self).fixed_units(),
    {
        self.set_flag(NORMAL, type_ == GL_FIXED);
        if type_ == GL_FIXED { GL_FLOAT } else { type_ }
    }

    /// `glVertexPointer`, as [Self::color_pointer].
    pub fn vertex_pointer(&mut self, size: i32, type_: u32) -> (gl_type: u32)
        requires
            old(self).wf(),
            size == 2 || size == 3 || size == 4,
            type_ == GL_FIXED || type_ == GL_SHORT || type_ == GL_FLOAT,
        ensures
            final(self).wf(),
            gl_type == if type_ == GL_FIXED { GL_FLOAT } else { type_ },
            final(self).is_fixed(VERTEX as int) == (type_ == GL_FIXED),
            forall|i: int| 0 <= i < ARRAY_COUNT && i != VERTEX ==> #[trigger] final(self).is_fixed(i) == old(self).is_fixed(i),
            final(self).fixed_units() == old(self).fixed_units(),
    {
        self.set_flag(VERTEX, type_ == GL_FIXED);
        if type_ == GL_FIXED { GL_FLOAT } else { type_ }
    }

    /// `glTexCoordPointer` for the client-active texture unit
    /// `active_texture`: that unit's co-ordinates become fixed-point or not,
    /// and the texture co-ordinate array stays flagged while any unit's are.
    pub fn tex_coord_pointer(&mut self, size: i32, type_: u32, active_texture: u32) -> (gl_type: u32)
        requires
            old(self).wf(),
            size == 2 || size == 3 || size == 4,
            type_ == GL_FIXED || type_ == GL_SHORT || type_ == GL_FLOAT,
        ensures
            final(self).wf(),
            gl_type == if type_ == GL_FIXED { GL_FLOAT } else { type_ },
            final(self).fixed_units() == if type_ == GL_FIXED {
                old(self).fixed_units().insert(active_texture)
            } else {
                old(self).fixed_units().remove(active_texture)
            },
            final(self).is_fixed(TEXTURE_COORD as int) == !final(self).fixed_units().is_empty(),
            forall|i: int| 0 <= i < ARRAY_COUNT && i != TEXTURE_COORD ==> #[trigger] final(self).is_fixed(i) == old(self).is_fixed(i),
    {
        let ghost old_units = self.fixed_point_texture_units@;
        let found = self.unit_index(active_texture);
        if type_ == GL_FIXED {
            if found.is_none() {
                self.fixed_point_texture_units.push(active_texture);
                proof {
                    let new_units = self.fixed_point_texture_units@;
                    assert(new_units =~= old_units.push(active_texture));
                    assert forall|u: u32| new_units.contains(u) == old_units.to_set().insert(active_texture).contains(u) by {
                        if new_units.contains(u) {
                            let j = new_units.index_of(u);
                            if j < old_units.len() {
                                assert(old_units[j] == u);
                            }
                        }
                        if old_units.contains(u) {
                            let j = old_units.index_of(u);
                            assert(new_units[j] == u);
                        }
                        if u == active_texture {
                            assert(new_units[old_units.len() as int] == u);
                        }
                    }
                    assert(new_units.to_set() =~= old_units.to_set().insert(active_texture));
                    assert forall|a: int, b: int| 0 <= a < b < new_units.len() implies new_units[a] != new_units[b] by {
                        if b == old_units.len() {
                            assert(old_units[a] == new_units[a]);
                        }
                    }
                }
            } else {
                assert(old_units.to_set().insert(active_texture) =~= old_units.to_set());
            }
            self.set_flag(TEXTURE_COORD, true);
        } else {
            if let Some(k) = found {
                self.fixed_point_texture_units.remove(k);
                proof {
                    let new_units = self.fixed_point_texture_units@;
                    assert(new_units =~= old_units.remove(k as int));
                    assert forall|u: u32| new_units.to_set().contains(u) == old_units.to_set().remove(active_texture).contains(u) by {
                        if new_units.contains(u) {
                            let j = new_units.index_of(u);
                            if j < k {
                                assert(old_units[j] == u);
                            } else {
                                assert(old_units[j + 1] == u);
                            }
                            assert(u != active_texture);
                        }
                        if old_units.contains(u) && u != active_texture {
                            let j = old_units.index_of(u);
                            if j < k {
                                assert(new_units[j] == u);
                            } else {
                                assert(new_units[j - 1] == u);
                            }
                        }
                    }
                    assert(new_units.to_set() =~= old_units.to_set().remove(active_texture));
                }
            } else {
                assert(old_units.to_set().remove(active_texture) =~= old_units.to_set());
            }
            let empty = self.fixed_point_texture_units.len() == 0;
            if empty {
                self.set_flag(TEXTURE_COORD, false);
            }
        }
        proof {
            let units = self.fixed_point_texture_units@;
            if units.len() > 0 {
                assert(units.to_set().contains(units[0]));
            } else {
                assert(units.to_set() =~= Set::<u32>::empty());
            }
        }
        if type_ == GL_FIXED { GL_FLOAT } else { type_ }
    }

    fn set_flag(&mut self, i: usize, v: bool)
        requires
            i < ARRAY_COUNT,
        ensures
            final(self).is_fixed(i as int) == v,
            forall|j: int| 0 <= j < ARRAY_COUNT && j != i ==> #[trigger] final(self).is_fixed(j) == old(self).is_fixed(j),
            final(self).fixed_point_texture_units == old(self).fixed_point_texture_units,
    {
        self.pointer_is_fixed_point[i] = v;
    }
}

/// Whether `mode` is a primitive mode that draw calls accept.
pub fn is_draw_mode(mode: u32) -> (b: bool)
    ensures
        b == (mode == GL_POINTS || mode == GL_LINE_STRIP || mode == GL_LINE_LOOP || mode == GL_LINES
            || mode == GL_TRIANGLE_STRIP || mode == GL_TRIANGLE_FAN || mode == GL_TRIANGLES),
{
    mode == GL_POINTS || mode == GL_LINE_STRIP || mode == GL_LINE_LOOP || mode == GL_LINES || mode
        == GL_TRIANGLE_STRIP || mode == GL_TRIANGLE_FAN || mode == GL_TRIANGLES
}

/// Smallest of the indices `s` (which must not be empty).
pub open spec fn min_index(s: Seq<u16>) -> u16
    decreases s.len(),
{
    if s.len() <= 1 {
        s[0]
    } else if s.last() < min_index(s.drop_last()) {
        s.last()
    } else {
        min_index(s.drop_last())
    }
}

/// Largest of the indices `s` (which must not be empty).
pub open spec fn max_index(s: Seq<u16>) -> u16
    decreases s.len(),
{
    if s.len() <= 1 {
        s[0]
    } else if s.last() > max_index(s.drop_last()) {
        s.last()
    } else {
        max_index(s.drop_last())
    }
}

/// The range of vertices that an indexed draw call with `indices` reads:
/// `(first, count)`, from the smallest index to the largest, or `(0, 0)`
/// when there are no indices. 8-bit indices are passed widened.
pub fn index_range(indices: &[u16]) -> (r: (i32, i32))
    ensures
        indices@.len() == 0 ==> r == (0i32, 0i32),
        indices@.len() > 0 ==> r.0 == min_index(indices@) && r.1 == max_index(indices@) + 1
            - min_index(indices@),
{
    if indices.len() == 0 {
        return (0, 0);
    }
    let mut first: u16 = indices[0];
    let mut last: u16 = indices[0];
    let mut i: usize = 1;
    assert(indices@.take(1).drop_last() =~= Seq::<u16>::empty());
    while i < indices.len()
        invariant
            1 <= i <= indices@.len(),
            first == min_index(indices@.take(i as int)),
            last == max_index(indices@.take(i as int)),
            first <= last,
        decreases indices@.len() - i,
    {
        assert(indices@.take(i + 1).drop_last() =~= indices@.take(i as int));
        let index = indices[i];
        if index < first {
            first = index;
        }
        if index > last {
            last = index;
        }
        i = i + 1;
    }
    assert(indices@.take(indices@.len() as int) =~= indices@);
    (first as i32, last as i32 + 1 - first as i32)
}

/// Components per vector and bytes between vectors of a fixed-point array
/// whose queried size is `size` and stride `stride`: the normal array has
/// no size and always three components; a stride of 0 means tightly
/// packed 4-byte components.
pub fn fixed_point_layout(name: u32, size: Option<i32>, stride: i32) -> (layout: (i32, i32))
    requires
        size is None ==> name == GL_NORMAL_ARRAY,
        size matches Some(s) ==> 0 <= s <= 4,
    ensures
        layout.0 == match size {
            Some(s) => s,
            None => 3i32,
        },
        layout.1 == if stride == 0 {
            layout.0 * 4
        } else {
            stride as int
        },
{
    let size = match size {
        Some(s) => s,
        None => 3,
    };
    let stride = if stride == 0 { size * 4 } else { stride };
    (size, stride)
}

/// Position of component `k` of vector `j` in a converted array of
/// `size`-component vectors.
pub open spec fn component_slot(j: int, k: int, size: int) -> int {
    j * size + k
}

/// Offset of component `k` of vector `j` in the source data.
pub open spec fn component_offset(j: int, k: int, stride: int) -> int {
    j * stride + 4 * k
}

/// The fixed-point components that a draw call of `count` vertices from
/// `first` reads from an array laid out as `size` components every `stride`
/// bytes in `src` (which starts at the array's pointer), placed where the
/// converted array puts them: vector `j` at `j * size`. Vectors before
/// `first` are zero.
#[verifier::spinoff_prover]
pub fn gather_fixed_point(src: &[u8], first: usize, count: usize, size: usize, stride: usize) -> (out: Vec<i32>)
    requires
        count > 0 ==> component_offset((first + count - 1) as int, size as int, stride as int) <= src@.len(),
        first + count <= usize::MAX,
        (first + count) * size <= usize::MAX,
        size <= 4,
    ensures
        out@.len() == (first + count) * size,
        forall|j: int, k: int|
            first <= j < first + count && 0 <= k < size ==> #[trigger] out@[component_slot(j, k, size as int)]
                == le_u32(src@, component_offset(j, k, stride as int)) as i32,
        forall|i: int| 0 <= i < first * size ==> #[trigger] out@[i] == 0,
{
    let _src_len = src.len();
    let total = (first + count) * size;
    let mut out: Vec<i32> = Vec::new();
    let mut i: usize = 0;
    while i < total
        invariant
            i <= total,
            out@.len() == i,
            forall|x: int| 0 <= x < i ==> #[trigger] out@[x] == 0,
        decreases total - i,
    {
        out.push(0);
        i = i + 1;
    }
    assert(first * size <= total) by (nonlinear_arith)
        requires
            total == (first + count) * size,
    ;
    let mut j: usize = first;
    while j < first + count
        invariant
            first <= j <= first + count,
            first + count <= usize::MAX,
            src@.len() <= usize::MAX,
            out@.len() == total,
            total == (first + count) * size,
            size <= 4,
            count > 0 ==> component_offset((first + count - 1) as int, size as int, stride as int) <= src@.len(),
            forall|j2: int, k: int|
                first <= j2 < j && 0 <= k < size ==> #[trigger] out@[component_slot(j2, k, size as int)]
                    == le_u32(src@, component_offset(j2, k, stride as int)) as i32,
            forall|x: int| 0 <= x < first * size ==> #[trigger] out@[x] == 0,
        decreases first + count - j,
    {
        proof {
            assert(j * size + size <= total) by (nonlinear_arith)
                requires
                    j < first + count,
                    total == (first + count) * size,
            ;
            assert(j * stride <= (first + count - 1) * stride) by (nonlinear_arith)
                requires
                    j <= first + count - 1,
            ;
            assert(j * stride + 4 * size <= src@.len());
        }
        let base = j * size;
        let offset = j * stride;
        let mut k: usize = 0;
        while k < size
            invariant
                first <= j < first + count,
                out@.len() == total,
                base == j * size,
                offset == j * stride,
                base + size <= total,
                k <= size,
                size <= 4,
                offset + 4 * size <= src@.len(),
                src@.len() <= usize::MAX,
                forall|j2: int, k2: int|
                    first <= j2 < j && 0 <= k2 < size ==> #[trigger] out@[component_slot(j2, k2, size as int)]
                        == le_u32(src@, component_offset(j2, k2, stride as int)) as i32,
                forall|k2: int|
                    0 <= k2 < k ==> #[trigger] out@[component_slot(j as int, k2, size as int)]
                        == le_u32(src@, component_offset(j as int, k2, stride as int)) as i32,
                forall|x: int| 0 <= x < first * size ==> #[trigger] out@[x] == 0,
            decreases size - k,
        {
            let v = read_le_u32(src, offset + 4 * k) as i32;
            let ghost before = out@;
            out.set(base + k, v);
            proof {
                assert forall|j2: int, k2: int|
                    first <= j2 < j && 0 <= k2 < size implies #[trigger] out@[component_slot(j2, k2, size as int)]
                        == le_u32(src@, component_offset(j2, k2, stride as int)) as i32 by {
                    assert(component_slot(j2, k2, size as int) < base) by (nonlinear_arith)
                        requires
                            j2 < j,
                            k2 < size,
                            base == j * size,
                    ;
                    assert(out@[component_slot(j2, k2, size as int)] == before[component_slot(j2, k2, size as int)]);
                }
                assert forall|x: int| 0 <= x < first * size implies #[trigger] out@[x] == 0 by {
                    assert(first * size <= base) by (nonlinear_arith)
                        requires
                            first <= j,
                            base == j * size,
                    ;
                    assert(out@[x] == before[x]);
                }
                assert forall|k2: int| 0 <= k2 < k + 1 implies #[trigger] out@[component_slot(j as int, k2, size as int)]
                    == le_u32(src@, component_offset(j as int, k2, stride as int)) as i32 by {
                    if k2 < k {
                        assert(out@[component_slot(j as int, k2, size as int)] == before[component_slot(j as int, k2, size as int)]);
                    }
                }
            }
            k = k + 1;
        }
        j = j + 1;
    }
    out
}

/// A context of the layer: its array state, and whether OpenGL 2.1's
/// functions have been loaded for it.
pub struct GLES1OnGL2Context {
    pub state: GLES1OnGL2State,
    pub is_loaded: bool,
}

impl GLES1OnGL2Context {
    /// A new context with no fixed-point arrays, not yet loaded.
    pub fn new() -> (c: GLES1OnGL2Context)
        ensures
            c.state.wf(),
            forall|i: int| 0 <= i < ARRAY_COUNT ==> !#[trigger] c.state.is_fixed(i),
            !c.is_loaded,
    {
        GLES1OnGL2Context { state: GLES1OnGL2State::new(), is_loaded: false }
    }

    /// Making the context current: returns whether it has to be made current
    /// and OpenGL 2.1's functions loaded, which is needed unless it is
    /// already current and loaded. Afterwards it counts as loaded.
    pub fn make_current(&mut self, is_current: bool) -> (must_load: bool)
        ensures
            must_load == !(is_current && old(self).is_loaded),
            final(self).is_loaded,
            final(self).state == old(self).state,
    {
        if is_current && self.is_loaded {
            return false;
        }
        self.is_loaded = true;
        true
    }
}


/// The layer as seen by one draw call: the array state of the current
/// context.
pub struct GLES1OnGL2<'a> {
    pub state: &'a mut GLES1OnGL2State,
}

impl GLES1OnGL2Context {
    /// The layer for a draw call on this context.
    pub fn layer(&mut self) -> (l: GLES1OnGL2<'_>)
        ensures
            *l.state == old(self).state,
            final(self).state == *final(l.state),
            final(self).is_loaded == old(self).is_loaded,
    {
        GLES1OnGL2 { state: &mut self.state }
    }
}


// ----------------------------------------------------
// Paletted textures
// ----------------------------------------------------

/// Bytes per palette entry of a paletted format (0 for a combination that
/// no paletted format has).
pub open spec fn palette_entry_size(f: PalettedTextureFormat) -> nat {
    if f.palette_entry_type == GL_UNSIGNED_BYTE {
        if f.palette_entry_format == GL_RGB {
            3
        } else if f.palette_entry_format == GL_RGBA {
            4
        } else {
            0
        }
    } else if f.palette_entry_type == GL_UNSIGNED_SHORT_5_6_5 || f.palette_entry_type
        == GL_UNSIGNED_SHORT_4_4_4_4 || f.palette_entry_type == GL_UNSIGNED_SHORT_5_5_5_1 {
        2
    } else {
        0
    }
}

/// Entries in the palette: 16 for 4-bit indices, 256 for 8-bit ones.
pub open spec fn palette_entry_count(f: PalettedTextureFormat) -> nat {
    if f.index_is_nibble {
        16
    } else {
        256
    }
}

/// Bytes of index data for `n` pixels: 4-bit indices two to a byte, 8-bit
/// indices in whole 4-byte words.
pub open spec fn indices_size(f: PalettedTextureFormat, n: nat) -> nat {
    if f.index_is_nibble {
        ((n + 1) / 2) as nat
    } else {
        (4 * ((n + 3) / 4)) as nat
    }
}

/// The palette index of pixel `i`: 4-bit indices take the high nibble of
/// a byte first.
pub open spec fn pixel_index(f: PalettedTextureFormat, indices: Seq<u8>, i: int) -> int {
    if f.index_is_nibble {
        if i % 2 == 0 {
            (indices[i / 2] / 16) as int
        } else {
            (indices[i / 2] % 16) as int
        }
    } else {
        indices[i] as int
    }
}

/// Position of byte `k` of pixel `i` in the decoded image.
pub open spec fn pixel_byte(i: int, k: int, size: int) -> int {
    i * size + k
}

proof fn lemma_pixel_bytes(i: int, k: int, size: int, n: int)
    requires
        0 <= i < n,
        0 <= k < size,
    ensures
        0 <= i * size,
        i * size + k < n * size,
        i * size + size <= n * size,
{
    assert(0 <= i * size) by (nonlinear_arith)
        requires
            0 <= i,
            0 <= k < size,
    ;
    assert(i * size + size <= n * size) by (nonlinear_arith)
        requires
            i < n,
            0 <= k < size,
    ;
}

/// Decodes a paletted texture of `width` by `height` pixels: `data` is the
/// palette followed by the indices, and each pixel becomes a copy of its
/// palette entry. Only a single mipmap level without border is supported;
/// the format must be one of [crate::gles::util::paletted_layout]'s (which
/// all have a palette entry size).
#[verifier::spinoff_prover]
pub fn decode_paletted_texture(
    format: PalettedTextureFormat,
    width: i32,
    height: i32,
    level: i32,
    border: i32,
    data: &[u8],
) -> (decoded: Vec<u8>)
    requires
        palette_entry_size(format) > 0,
        border == 0,
        level == 0,
        0 <= width,
        0 <= height,
        width * height * 4 <= usize::MAX,
        data@.len() == palette_entry_size(format) * palette_entry_count(format) + indices_size(
            format,
            (width * height) as nat,
        ),
    ensures
        ({
            let es = palette_entry_size(format) as int;
            let n = width * height;
            let palette_size = es * palette_entry_count(format);
            let indices = data@.subrange(palette_size, data@.len() as int);
            &&& decoded@.len() == n * es
            &&& forall|i: int, k: int|
                0 <= i < n && 0 <= k < es ==> #[trigger] decoded@[pixel_byte(i, k, es)] == data@[pixel_index(
                    format,
                    indices,
                    i,
                ) * es + k]
        }),
{
    let es: usize = if format.palette_entry_type == GL_UNSIGNED_BYTE {
        if format.palette_entry_format == GL_RGB { 3 } else { 4 }
    } else {
        2
    };
    let count: usize = if format.index_is_nibble { 16 } else { 256 };
    let palette_size = es * count;
    let n = width as usize * height as usize;
    let ghost indices = data@.subrange(palette_size as int, data@.len() as int);
    let mut decoded: Vec<u8> = Vec::new();
    let mut i: usize = 0;
    while i < n
        invariant
            es == palette_entry_size(format),
            2 <= es <= 4,
            count == palette_entry_count(format),
            palette_size == es * count,
            n == width * height,
            n * 4 <= usize::MAX,
            i <= n,
            data@.len() == palette_size + indices_size(format, n as nat),
            indices == data@.subrange(palette_size as int, data@.len() as int),
            decoded@.len() == i * es,
            forall|i2: int, k: int|
                0 <= i2 < i && 0 <= k < es ==> #[trigger] decoded@[pixel_byte(i2, k, es as int)]
                    == data@[pixel_index(format, indices, i2) * es + k],
        decreases n - i,
    {
        let index: usize = if format.index_is_nibble {
            let b = data[palette_size + i / 2];
            if i % 2 == 0 {
                assert(b >> 4u8 == b / 16) by (bit_vector);
                (b >> 4u8) as usize
            } else {
                assert(b & 0xfu8 == b % 16) by (bit_vector);
                (b & 0xfu8) as usize
            }
        } else {
            data[palette_size + i] as usize
        };
        assert(index == pixel_index(format, indices, i as int));
        assert(index < count);
        proof {
            assert(index * es + es <= palette_size) by (nonlinear_arith)
                requires
                    index < count,
                    palette_size == es * count,
            ;
            assert((i + 1) * es == i * es + es) by (nonlinear_arith);
        }
        let base = index * es;
        let mut k: usize = 0;
        while k < es
            invariant
                es == palette_entry_size(format),
                2 <= es <= 4,
                base == index * es,
                base + es <= palette_size,
                palette_size <= data@.len(),
                index == pixel_index(format, indices, i as int),
                i < n,
                k <= es,
                decoded@.len() == i * es + k,
                forall|i2: int, k2: int|
                    0 <= i2 < i && 0 <= k2 < es ==> #[trigger] decoded@[pixel_byte(i2, k2, es as int)]
                        == data@[pixel_index(format, indices, i2) * es + k2],
                forall|k2: int|
                    0 <= k2 < k ==> #[trigger] decoded@[pixel_byte(i as int, k2, es as int)]
                        == data@[pixel_index(format, indices, i as int) * es + k2],
            decreases es - k,
        {
            decoded.push(data[base + k]);
            proof {
                assert forall|i2: int, k2: int|
                    0 <= i2 < i && 0 <= k2 < es implies #[trigger] decoded@[pixel_byte(i2, k2, es as int)]
                        == data@[pixel_index(format, indices, i2) * es + k2] by {
                    lemma_pixel_bytes(i2, k2, es as int, i as int);
                }
            }
            k = k + 1;
        }
        i = i + 1;
    }
    decoded
}


/// The blend factors that `glBlendFunc` accepts: `GL_ZERO`, `GL_ONE`, and
/// `GL_SRC_COLOR` to `GL_SRC_ALPHA_SATURATE`. Source-only and
/// destination-only factors are tolerated in either argument.
pub open spec fn spec_is_blend_factor(f: u32) -> bool {
    f == 0 || f == 1 || (0x300 <= f && f <= 0x308)
}

/// Whether `f` is a blend factor that `glBlendFunc` accepts.
pub fn is_blend_factor(f: u32) -> (b: bool)
    ensures
        b == spec_is_blend_factor(f),
{
    f == 0 || f == 1 || (0x300 <= f && f <= 0x308)
}

} // verus!
