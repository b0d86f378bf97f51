//! Shared utilities: tables of OpenGL ES parameters and paletted texture
//! formats.
use vstd::prelude::*;

verus! {

/// OpenGL ES enum values used by the tables here.
pub const GL_MAX_TEXTURE_SIZE: u32 = 0x0D33;
pub const GL_RGB: u32 = 0x1907;
pub const GL_RGBA: u32 = 0x1908;
pub const GL_UNSIGNED_BYTE: u32 = 0x1401;
pub const GL_UNSIGNED_SHORT_4_4_4_4: u32 = 0x8033;
pub const GL_UNSIGNED_SHORT_5_5_5_1: u32 = 0x8034;
pub const GL_UNSIGNED_SHORT_5_6_5: u32 = 0x8363;
pub const GL_PALETTE4_RGB8_OES: u32 = 0x8B90;
pub const GL_PALETTE4_RGBA8_OES: u32 = 0x8B91;
pub const GL_PALETTE4_R5_G6_B5_OES: u32 = 0x8B92;
pub const GL_PALETTE4_RGBA4_OES: u32 = 0x8B93;
pub const GL_PALETTE4_RGB5_A1_OES: u32 = 0x8B94;
pub const GL_PALETTE8_RGB8_OES: u32 = 0x8B95;
pub const GL_PALETTE8_RGBA8_OES: u32 = 0x8B96;
pub const GL_PALETTE8_R5_G6_B5_OES: u32 = 0x8B97;
pub const GL_PALETTE8_RGBA4_OES: u32 = 0x8B98;
pub const GL_PALETTE8_RGB5_A1_OES: u32 = 0x8B99;
pub const GL_SHADER_BINARY_FORMATS: u32 = 0x8DF8;
pub const GL_NUM_SHADER_BINARY_FORMATS: u32 = 0x8DF9;

/// Type of a parameter, used in [ParamTable].
#[derive(Copy, Clone, PartialEq, Eq, Debug, Structural)]
pub enum ParamType {
    Boolean,
    Float,
    FloatSpecial,
    Int,
}

/// A table of parameter names with the type and the number of components of
/// each parameter. The first entry for a name is the one that counts.
pub struct ParamTable(pub Vec<(u32, ParamType, usize)>);

/// Type and component count of the first entry of `table` named `pname`.
pub open spec fn param_lookup(table: Seq<(u32, ParamType, usize)>, pname: u32) -> Option<
    (ParamType, usize),
>
    decreases table.len(),
{
    if table.len() == 0 {
        None
    } else if table[0].0 == pname {
        Some((table[0].1, table[0].2))
    } else {
        param_lookup(table.drop_first(), pname)
    }
}

proof fn lemma_param_lookup_some(table: Seq<(u32, ParamType, usize)>, pname: u32)
    ensures
        param_lookup(table, pname) is Some <==> exists|i: int|
            0 <= i < table.len() && #[trigger] table[i].0 == pname,
    decreases table.len(),
{
    if table.len() > 0 {
        lemma_param_lookup_some(table.drop_first(), pname);
        if param_lookup(table.drop_first(), pname) is Some {
            let i = choose|i: int| 0 <= i < table.drop_first().len() && #[trigger] table.drop_first()[i].0 == pname;
            assert(table[i + 1].0 == pname);
        }
        if exists|i: int| 0 <= i < table.len() && #[trigger] table[i].0 == pname {
            let i = choose|i: int| 0 <= i < table.len() && #[trigger] table[i].0 == pname;
            if i > 0 {
                assert(table.drop_first()[i - 1].0 == pname);
            }
        }
    }
}

/// How a fixed-point value is handed to a parameter setter.
#[derive(Copy, Clone, PartialEq, Eq, Debug, Structural)]
pub enum ParamSetting {
    /// Convert this fixed-point value to floating point and call the float
    /// setter with it.
    Float(i32),
    /// Call the integer setter with this value.
    Int(i32),
}

/// How fixed-point values are handed to a vector parameter setter.
pub enum ParamSettingV {
    /// Convert these fixed-point values to floating point and call the float
    /// setter with them.
    Floats(Vec<i32>),
    /// Call the integer setter with the values as they are.
    Ints,
}

impl ParamTable {
    pub open spec fn entries(&self) -> Seq<(u32, ParamType, usize)> {
        self.0@
    }

    /// Whether the table has an entry for `pname`.
    pub fn contains(&self, pname: u32) -> (b: bool)
        ensures
            b == (param_lookup(self.entries(), pname) is Some),
            b == exists|i: int| 0 <= i < self.entries().len() && #[trigger] self.entries()[i].0 == pname,
    {
        let mut i: usize = 0;
        while i < self.0.len()
            invariant
                i <= self.entries().len(),
                forall|j: int| 0 <= j < i ==> #[trigger] self.entries()[j].0 != pname,
            decreases self.entries().len() - i,
        {
            if self.0[i].0 == pname {
                assert(self.entries()[i as int].0 == pname);
                proof {
                    lemma_param_lookup_some(self.entries(), pname);
                }
                return true;
            }
            i = i + 1;
        }
        proof {
            lemma_param_lookup_some(self.entries(), pname);
        }
        false
    }

    /// The type and component count of `pname`, which must be in the table.
    pub fn get_type_info(&self, pname: u32) -> (info: (ParamType, usize))
        requires
            param_lookup(self.entries(), pname) is Some,
        ensures
            param_lookup(self.entries(), pname) == Some(info),
    {
        let mut i: usize = 0;
        assert(self.entries().subrange(0, self.entries().len() as int) =~= self.entries());
        while i < self.0.len()
            invariant
                i <= self.entries().len(),
                param_lookup(self.entries(), pname) == param_lookup(
                    self.entries().subrange(i as int, self.entries().len() as int),
                    pname,
                ),
            decreases self.entries().len() - i,
        {
            let ghost rest = self.entries().subrange(i as int, self.entries().len() as int);
            assert(rest.drop_first() =~= self.entries().subrange(i + 1, self.entries().len() as int));
            let (name, type_, count) = self.0[i];
            if name == pname {
                return (type_, count);
            }
            i = i + 1;
        }
        (ParamType::Int, 0)
    }

    /// How to set the single-component parameter `pname` to the fixed-point
    /// value `param`: floats get the value converted, booleans get 0 or 1.
    pub fn setx(&self, pname: u32, param: i32) -> (s: ParamSetting)
        requires
            param_lookup(self.entries(), pname) matches Some(info) && info.1 == 1,
        ensures
            s == match param_lookup(self.entries(), pname).unwrap().0 {
                ParamType::Float | ParamType::FloatSpecial => ParamSetting::Float(param),
                ParamType::Int => ParamSetting::Int(param),
                ParamType::Boolean => ParamSetting::Int(if param != 0 { 1 } else { 0 }),
            },
    {
        let (type_, _count) = self.get_type_info(pname);
        match type_ {
            ParamType::Float | ParamType::FloatSpecial => ParamSetting::Float(param),
            ParamType::Int => ParamSetting::Int(param),
            ParamType::Boolean => ParamSetting::Int(if param != 0 { 1 } else { 0 }),
        }
    }

    /// How to set the parameter `pname` from the fixed-point values
    /// `params`: floats get the parameter's components converted, integers
    /// and booleans are passed on as they are.
    pub fn setxv(&self, pname: u32, params: &[i32]) -> (s: ParamSettingV)
        requires
            param_lookup(self.entries(), pname) is Some,
            (param_lookup(self.entries(), pname).unwrap().0 is Float || param_lookup(
                self.entries(),
                pname,
            ).unwrap().0 is FloatSpecial) ==> param_lookup(self.entries(), pname).unwrap().1
                <= params@.len(),
        ensures
            match param_lookup(self.entries(), pname).unwrap().0 {
                ParamType::Float | ParamType::FloatSpecial => s matches ParamSettingV::Floats(v)
                    && v@ == params@.take(param_lookup(self.entries(), pname).unwrap().1 as int),
                ParamType::Int | ParamType::Boolean => s is Ints,
            },
    {
        let (type_, count) = self.get_type_info(pname);
        match type_ {
            ParamType::Float | ParamType::FloatSpecial => {
                let mut float_params: Vec<i32> = Vec::new();
                let mut j: usize = 0;
                while j < count
                    invariant
                        count <= params@.len(),
                        j <= count,
                        float_params@ =~= params@.take(j as int),
                    decreases count - j,
                {
                    float_params.push(params[j]);
                    j = j + 1;
                }
                ParamSettingV::Floats(float_params)
            },
            ParamType::Int | ParamType::Boolean => ParamSettingV::Ints,
        }
    }

    /// Checks that `pname` has `expected` components (a caller that gets this
    /// wrong is a bug in the emulator).
    pub fn assert_component_count(&self, pname: u32, expected: usize)
        requires
            param_lookup(self.entries(), pname) matches Some(info) && info.1 == expected,
    {
        let (_type, actual) = self.get_type_info(pname);
        assert(actual == expected);
    }

    /// Checks that `pname` is in the table (a caller that gets this wrong is
    /// a bug in the emulator).
    pub fn assert_known_param(&self, pname: u32)
        requires
            param_lookup(self.entries(), pname) is Some,
    {
        let _ = self.get_type_info(pname);
    }
}

/// The parameters that `glGetIntegerv` and friends answer for directly.
pub fn get_params() -> (t: ParamTable)
    ensures
        t.entries() == seq![
            (GL_MAX_TEXTURE_SIZE, ParamType::Int, 1usize),
            (GL_SHADER_BINARY_FORMATS, ParamType::Int, 1usize),
            (GL_NUM_SHADER_BINARY_FORMATS, ParamType::Int, 0usize),
        ],
{
    // No shader binary formats are supported.
    ParamTable(
        vec![
            (GL_MAX_TEXTURE_SIZE, ParamType::Int, 1usize),
            (GL_SHADER_BINARY_FORMATS, ParamType::Int, 1usize),
            (GL_NUM_SHADER_BINARY_FORMATS, ParamType::Int, 0usize),
        ],
    )
}

/// The layout of a paletted texture format.
#[derive(Copy, Clone, PartialEq, Eq, Debug, Structural)]
pub struct PalettedTextureFormat {
    /// Whether an index is 4 bits (else 8).
    pub index_is_nibble: bool,
    pub palette_entry_format: u32,
    pub palette_entry_type: u32,
}

/// The layout of the paletted format `internalformat`, if it is one:
/// whether indices are nibbles, then the format and type of a palette entry.
pub open spec fn paletted_layout(internalformat: u32) -> Option<(bool, u32, u32)> {
    if internalformat == GL_PALETTE4_RGB8_OES {
        Some((true, GL_RGB, GL_UNSIGNED_BYTE))
    } else if internalformat == GL_PALETTE4_RGBA8_OES {
        Some((true, GL_RGBA, GL_UNSIGNED_BYTE))
    } else if internalformat == GL_PALETTE4_R5_G6_B5_OES {
        Some((true, GL_RGB, GL_UNSIGNED_SHORT_5_6_5))
    } else if internalformat == GL_PALETTE4_RGBA4_OES {
        Some((true, GL_RGBA, GL_UNSIGNED_SHORT_4_4_4_4))
    } else if internalformat == GL_PALETTE4_RGB5_A1_OES {
        Some((true, GL_RGBA, GL_UNSIGNED_SHORT_5_5_5_1))
    } else if internalformat == GL_PALETTE8_RGB8_OES {
        Some((false, GL_RGB, GL_UNSIGNED_BYTE))
    } else if internalformat == GL_PALETTE8_RGBA8_OES {
        Some((false, GL_RGBA, GL_UNSIGNED_BYTE))
    } else if internalformat == GL_PALETTE8_R5_G6_B5_OES {
        Some((false, GL_RGB, GL_UNSIGNED_SHORT_5_6_5))
    } else if internalformat == GL_PALETTE8_RGBA4_OES {
        Some((false, GL_RGBA, GL_UNSIGNED_SHORT_4_4_4_4))
    } else if internalformat == GL_PALETTE8_RGB5_A1_OES {
        Some((false, GL_RGBA, GL_UNSIGNED_SHORT_5_5_5_1))
    } else {
        None
    }
}

impl PalettedTextureFormat {
    /// The layout of the paletted texture format `internalformat`, or `None`
    /// if it is not a paletted format.
    pub fn get_info(internalformat: u32) -> (info: Option<Self>)
        ensures
            match paletted_layout(internalformat) {
                Some((nibble, format, type_)) => info == Some(
                    PalettedTextureFormat {
                        index_is_nibble: nibble,
                        palette_entry_format: format,
                        palette_entry_type: type_,
                    },
                ),
                None => info is None,
            },
    {
        let (nibble, format, type_) = if internalformat == GL_PALETTE4_RGB8_OES {
            (true, GL_RGB, GL_UNSIGNED_BYTE)
        } else if internalformat == GL_PALETTE4_RGBA8_OES {
            (true, GL_RGBA, GL_UNSIGNED_BYTE)
        } else if internalformat == GL_PALETTE4_R5_G6_B5_OES {
            (true, GL_RGB, GL_UNSIGNED_SHORT_5_6_5)
        } else if internalformat == GL_PALETTE4_RGBA4_OES {
            (true, GL_RGBA, GL_UNSIGNED_SHORT_4_4_4_4)
        } else if internalformat == GL_PALETTE4_RGB5_A1_OES {
            (true, GL_RGBA, GL_UNSIGNED_SHORT_5_5_5_1)
        } else if internalformat == GL_PALETTE8_RGB8_OES {
            (false, GL_RGB, GL_UNSIGNED_BYTE)
        } else if internalformat == GL_PALETTE8_RGBA8_OES {
            (false, GL_RGBA, GL_UNSIGNED_BYTE)
        } else if internalformat == GL_PALETTE8_R5_G6_B5_OES {
            (false, GL_RGB, GL_UNSIGNED_SHORT_5_6_5)
        } else if internalformat == GL_PALETTE8_RGBA4_OES {
            (false, GL_RGBA, GL_UNSIGNED_SHORT_4_4_4_4)
        } else if internalformat == GL_PALETTE8_RGB5_A1_OES {
            (false, GL_RGBA, GL_UNSIGNED_SHORT_5_5_5_1)
        } else {
            return None;
        };
        Some(
            PalettedTextureFormat {
                index_is_nibble: nibble,
                palette_entry_format: format,
                palette_entry_type: type_,
            },
        )
    }
}

/// Bytes one palette entry takes, by what the OpenGL ES specification
/// says of its format and type: three or four bytes of red, green, blue
/// (and alpha), or one packed 16-bit value.
pub open spec fn palette_entry_bytes(format: u32, type_: u32) -> int {
    if type_ == GL_UNSIGNED_BYTE {
        if format == GL_RGB {
            3
        } else {
            4
        }
    } else {
        2
    }
}

/// The layout of each paletted format follows its name, as the
/// `OES_compressed_paletted_texture` table gives it: the ten formats are the
/// consecutive numbers from `GL_PALETTE4_RGB8_OES`, the first five with
/// 4-bit indices and the last five with 8-bit ones, and within each five the
/// entries are `RGB8`, `RGBA8`, `R5_G6_B5`, `RGBA4`, `RGB5_A1` in that order:
/// 3 bytes for `RGB8`, 4 for `RGBA8`, 2 for the packed ones, and alpha in all
/// but `RGB8` and `R5_G6_B5`. The `PALETTE4` and `PALETTE8` variants of one
/// entry kind differ only in the index size.
pub proof fn law_paletted_layout_follows_name(f: u32)
    ensures
        paletted_layout(f) is Some <==> 0x8B90 <= f <= 0x8B99,
        paletted_layout(f) matches Some((nibble, format, type_)) ==> {
            let kind = (f - 0x8B90) % 5;
            &&& nibble == (f < 0x8B95)
            &&& palette_entry_bytes(format, type_) == if kind == 0 {
                3int
            } else if kind == 1 {
                4int
            } else {
                2int
            }
            &&& (format == GL_RGBA) == (kind != 0 && kind != 2)
            &&& (format == GL_RGB || format == GL_RGBA)
            &&& (kind == 2 ==> type_ == GL_UNSIGNED_SHORT_5_6_5)
            &&& (kind == 3 ==> type_ == GL_UNSIGNED_SHORT_4_4_4_4)
            &&& (kind == 4 ==> type_ == GL_UNSIGNED_SHORT_5_5_5_1)
        },
        0x8B90 <= f < 0x8B95 ==> (paletted_layout(f) matches Some((n4, f4, t4)) && paletted_layout(
            (f + 5) as u32,
        ) matches Some((n8, f8, t8)) && n4 && !n8 && f4 == f8 && t4 == t8),
{
}

} // verus!
