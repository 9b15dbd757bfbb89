use vstd::prelude::*;

verus! {

/// Number of entries in the type catalog.
pub const TYPE_COUNT: usize = 11;

/// The closed catalog of value types a generated item may use.
#[derive(Clone, Copy, Debug, PartialEq, Eq, Structural)]
pub enum Ty {
    U8,
    U16,
    U32,
    U64,
    I8,
    I16,
    I32,
    I64,
    Usize,
    Isize,
    String,
}

/// The canonical source spelling of each type.
pub open spec fn ty_text(t: Ty) -> Seq<char> {
    match t {
        Ty::U8 => "u8"@,
        Ty::U16 => "u16"@,
        Ty::U32 => "u32"@,
        Ty::U64 => "u64"@,
        Ty::I8 => "i8"@,
        Ty::I16 => "i16"@,
        Ty::I32 => "i32"@,
        Ty::I64 => "i64"@,
        Ty::Usize => "usize"@,
        Ty::Isize => "isize"@,
        Ty::String => "String"@,
    }
}

/// The catalog in its fixed order.
pub open spec fn catalog() -> Seq<Ty> {
    seq![
        Ty::U8,
        Ty::U16,
        Ty::U32,
        Ty::U64,
        Ty::I8,
        Ty::I16,
        Ty::I32,
        Ty::I64,
        Ty::Usize,
        Ty::Isize,
        Ty::String,
    ]
}

impl Ty {
    /// The source spelling of this type.
    pub fn as_str(&self) -> (r: &'static str)
        ensures
            r@ == ty_text(*self),
    {
        match self {
            Ty::U8 => "u8",
            Ty::U16 => "u16",
            Ty::U32 => "u32",
            Ty::U64 => "u64",
            Ty::I8 => "i8",
            Ty::I16 => "i16",
            Ty::I32 => "i32",
            Ty::I64 => "i64",
            Ty::Usize => "usize",
            Ty::Isize => "isize",
            Ty::String => "String",
        }
    }

    /// The source spelling of this type as an owned string.
    pub fn to_text(&self) -> (r: String)
        ensures
            r@ == ty_text(*self),
    {
        self.as_str().to_string()
    }

    /// The catalog entry at position `i`.
    pub fn from_index(i: usize) -> (t: Ty)
        requires
            i < TYPE_COUNT,
        ensures
            t == catalog()[i as int],
    {
        match i {
            0 => Ty::U8,
            1 => Ty::U16,
            2 => Ty::U32,
            3 => Ty::U64,
            4 => Ty::I8,
            5 => Ty::I16,
            6 => Ty::I32,
            7 => Ty::I64,
            8 => Ty::Usize,
            9 => Ty::Isize,
            _ => Ty::String,
        }
    }
}

} // verus!
