//! The value decoder: turning raw native tagged value structures, including
//! packed four-state bit-vectors, into typed value variants.
//!
//! A value query names a requested format; the native side answers with the
//! format it actually used plus a union. The glue around the library reads
//! the one union field that the answered format selects (`union_field_for`
//! says which) and hands the library a plain payload; `decode_value` then
//! produces the typed value. Four-state vectors are decoded bit by bit from
//! the two parallel bit-planes of each 32-bit word.

use vstd::prelude::*;
use vstd::string::StringExecFns;
use vstd::string::StrSliceExecFns;
use crate::handle::Handle;
use crate::time::Time;

verus! {

/// Native format code: binary text.
pub const BIN_STR_VAL: i32 = 1;

/// Native format code: octal text.
pub const OCT_STR_VAL: i32 = 2;

/// Native format code: decimal text.
pub const DEC_STR_VAL: i32 = 3;

/// Native format code: hexadecimal text.
pub const HEX_STR_VAL: i32 = 4;

/// Native format code: four-state scalar.
pub const SCALAR_VAL: i32 = 5;

/// Native format code: signed integer.
pub const INT_VAL: i32 = 6;

/// Native format code: real.
pub const REAL_VAL: i32 = 7;

/// Native format code: string.
pub const STRING_VAL: i32 = 8;

/// Native format code: packed four-state vector.
pub const VECTOR_VAL: i32 = 9;

/// Native format code: drive/charge strength.
pub const STRENGTH_VAL: i32 = 10;

/// Native format code: time.
pub const TIME_VAL: i32 = 11;

/// Native format code: object type.
pub const OBJ_TYPE_VAL: i32 = 12;

/// Native format code: suppressed value.
pub const SUPPRESS_VAL: i32 = 13;

/// Native format code: short integer.
pub const SHORT_INT_VAL: i32 = 14;

/// Native format code: long integer.
pub const LONG_INT_VAL: i32 = 15;

/// Native format code: short real.
pub const SHORT_REAL_VAL: i32 = 16;

/// Native format code: raw two-state vector.
pub const RAW_TWO_STATE_VAL: i32 = 17;

/// Native format code: raw four-state vector.
pub const RAW_FOUR_STATE_VAL: i32 = 18;

/// One four-state logic value.
#[derive(Clone, Copy, Debug, PartialEq, Eq, Structural)]
pub enum ScalarValue {
    Zero,
    One,
    X,
    Z,
    H,
    L,
    DontCare,
}

/// The scalar a native integer code stands for: 0, 1, Z, X, H, L and
/// don't-care in that order; every unrecognized code is read as don't-care,
/// the safe default.
pub open spec fn spec_scalar_from_code(code: u32) -> ScalarValue {
    if code == 0 {
        ScalarValue::Zero
    } else if code == 1 {
        ScalarValue::One
    } else if code == 2 {
        ScalarValue::Z
    } else if code == 3 {
        ScalarValue::X
    } else if code == 4 {
        ScalarValue::H
    } else if code == 5 {
        ScalarValue::L
    } else {
        ScalarValue::DontCare
    }
}

/// Map a native scalar code to its four-state value; unrecognized codes are
/// don't-care, never an error.
pub fn scalar_from_code(code: u32) -> (s: ScalarValue)
    ensures
        s == spec_scalar_from_code(code),
{
    if code == 0 {
        ScalarValue::Zero
    } else if code == 1 {
        ScalarValue::One
    } else if code == 2 {
        ScalarValue::Z
    } else if code == 3 {
        ScalarValue::X
    } else if code == 4 {
        ScalarValue::H
    } else if code == 5 {
        ScalarValue::L
    } else {
        ScalarValue::DontCare
    }
}

impl ScalarValue {
    /// The character this four-state value displays as.
    pub open spec fn spec_display_char(self) -> char {
        match self {
            ScalarValue::Zero => '0',
            ScalarValue::One => '1',
            ScalarValue::X => 'X',
            ScalarValue::Z => 'Z',
            ScalarValue::H => 'H',
            ScalarValue::L => 'L',
            ScalarValue::DontCare => '-',
        }
    }

    /// The character this four-state value displays as.
    pub fn display_char(&self) -> (c: char)
        ensures
            c == self.spec_display_char(),
    {
        match self {
            ScalarValue::Zero => '0',
            ScalarValue::One => '1',
            ScalarValue::X => 'X',
            ScalarValue::Z => 'Z',
            ScalarValue::H => 'H',
            ScalarValue::L => 'L',
            ScalarValue::DontCare => '-',
        }
    }
}

/// Append the display character of one scalar.
fn append_scalar_char(s: &mut String, sv: ScalarValue)
    ensures
        final(s)@ == old(s)@ + seq![sv.spec_display_char()],
{
    match sv {
        ScalarValue::Zero => {
            s.append("0");
            proof {
                reveal_strlit("0");
                assert("0"@ =~= seq!['0']);
            }
        },
        ScalarValue::One => {
            s.append("1");
            proof {
                reveal_strlit("1");
                assert("1"@ =~= seq!['1']);
            }
        },
        ScalarValue::X => {
            s.append("X");
            proof {
                reveal_strlit("X");
                assert("X"@ =~= seq!['X']);
            }
        },
        ScalarValue::Z => {
            s.append("Z");
            proof {
                reveal_strlit("Z");
                assert("Z"@ =~= seq!['Z']);
            }
        },
        ScalarValue::H => {
            s.append("H");
            proof {
                reveal_strlit("H");
                assert("H"@ =~= seq!['H']);
            }
        },
        ScalarValue::L => {
            s.append("L");
            proof {
                reveal_strlit("L");
                assert("L"@ =~= seq!['L']);
            }
        },
        ScalarValue::DontCare => {
            s.append("-");
            proof {
                reveal_strlit("-");
                assert("-"@ =~= seq!['-']);
            }
        },
    }
}

/// The display form of a decoded vector: one character per four-state bit,
/// in the vector's own order (most significant bit first).
pub fn scalars_to_string(bits: &Vec<ScalarValue>) -> (r: String)
    ensures
        r@.len() == bits@.len(),
        forall|i: int| 0 <= i < bits@.len() ==> r@[i] == bits@[i].spec_display_char(),
{
    let mut s = String::new();
    let mut i: usize = 0;
    while i < bits.len()
        invariant
            i <= bits@.len(),
            s@.len() == i,
            forall|j: int| 0 <= j < i ==> s@[j] == bits@[j].spec_display_char(),
        decreases bits@.len() - i,
    {
        append_scalar_char(&mut s, bits[i]);
        i += 1;
    }
    s
}

/// The value representations a query can ask for.
#[derive(Clone, Copy, Debug, PartialEq, Eq, Structural)]
pub enum ValueType {
    BinStr,
    OctStr,
    HexStr,
    DecStr,
    Scalar,
    Int,
    Real,
    String,
    Vector,
    Strength,
    Time,
    ObjType,
    Suppress,
    ShortInt,
    LongInt,
    ShortReal,
    RawTwoState,
    RawFourState,
}

impl ValueType {
    /// The native code this format is requested under.
    pub open spec fn spec_code(self) -> i32 {
        match self {
            ValueType::BinStr => BIN_STR_VAL,
            ValueType::OctStr => OCT_STR_VAL,
            ValueType::HexStr => HEX_STR_VAL,
            ValueType::DecStr => DEC_STR_VAL,
            ValueType::Scalar => SCALAR_VAL,
            ValueType::Int => INT_VAL,
            ValueType::Real => REAL_VAL,
            ValueType::String => STRING_VAL,
            ValueType::Vector => VECTOR_VAL,
            ValueType::Strength => STRENGTH_VAL,
            ValueType::Time => TIME_VAL,
            ValueType::ObjType => OBJ_TYPE_VAL,
            ValueType::Suppress => SUPPRESS_VAL,
            ValueType::ShortInt => SHORT_INT_VAL,
            ValueType::LongInt => LONG_INT_VAL,
            ValueType::ShortReal => SHORT_REAL_VAL,
            ValueType::RawTwoState => RAW_TWO_STATE_VAL,
            ValueType::RawFourState => RAW_FOUR_STATE_VAL,
        }
    }

    /// The native code this format is requested under.
    pub fn code(&self) -> (r: i32)
        ensures
            r == self.spec_code(),
    {
        match self {
            ValueType::BinStr => BIN_STR_VAL,
            ValueType::OctStr => OCT_STR_VAL,
            ValueType::HexStr => HEX_STR_VAL,
            ValueType::DecStr => DEC_STR_VAL,
            ValueType::Scalar => SCALAR_VAL,
            ValueType::Int => INT_VAL,
            ValueType::Real => REAL_VAL,
            ValueType::String => STRING_VAL,
            ValueType::Vector => VECTOR_VAL,
            ValueType::Strength => STRENGTH_VAL,
            ValueType::Time => TIME_VAL,
            ValueType::ObjType => OBJ_TYPE_VAL,
            ValueType::Suppress => SUPPRESS_VAL,
            ValueType::ShortInt => SHORT_INT_VAL,
            ValueType::LongInt => LONG_INT_VAL,
            ValueType::ShortReal => SHORT_REAL_VAL,
            ValueType::RawTwoState => RAW_TWO_STATE_VAL,
            ValueType::RawFourState => RAW_FOUR_STATE_VAL,
        }
    }

    /// The human-readable name of this format.
    pub open spec fn spec_format_name(self) -> Seq<char> {
        match self {
            ValueType::BinStr => "Binary String"@,
            ValueType::OctStr => "Octal String"@,
            ValueType::HexStr => "Hexadecimal String"@,
            ValueType::DecStr => "Decimal String"@,
            ValueType::Scalar => "Scalar"@,
            ValueType::Int => "Integer"@,
            ValueType::Real => "Real"@,
            ValueType::String => "String"@,
            ValueType::Vector => "Vector"@,
            ValueType::Strength => "Strength"@,
            ValueType::Time => "Time"@,
            ValueType::ObjType => "Object Type"@,
            ValueType::Suppress => "Suppress"@,
            ValueType::ShortInt => "Short Integer"@,
            ValueType::LongInt => "Long Integer"@,
            ValueType::ShortReal => "Short Real"@,
            ValueType::RawTwoState => "Raw Two-State Vector"@,
            ValueType::RawFourState => "Raw Four-State Vector"@,
        }
    }

    /// The human-readable name of this format.
    pub fn format_name(&self) -> (r: &'static str)
        ensures
            r@ == self.spec_format_name(),
    {
        match self {
            ValueType::BinStr => "Binary String",
            ValueType::OctStr => "Octal String",
            ValueType::HexStr => "Hexadecimal String",
            ValueType::DecStr => "Decimal String",
            ValueType::Scalar => "Scalar",
            ValueType::Int => "Integer",
            ValueType::Real => "Real",
            ValueType::String => "String",
            ValueType::Vector => "Vector",
            ValueType::Strength => "Strength",
            ValueType::Time => "Time",
            ValueType::ObjType => "Object Type",
            ValueType::Suppress => "Suppress",
            ValueType::ShortInt => "Short Integer",
            ValueType::LongInt => "Long Integer",
            ValueType::ShortReal => "Short Real",
            ValueType::RawTwoState => "Raw Two-State Vector",
            ValueType::RawFourState => "Raw Four-State Vector",
        }
    }
}

/// Drive and charge strength flags, packed as the native bit mask.
#[derive(Clone, Copy, Debug, PartialEq, Eq, Structural)]
pub struct StrengthValue {
    pub bits: u32,
}

/// Strength flag: supply drive.
pub const SUPPLY_DRIVE: u32 = 0x80;

/// Strength flag: strong drive.
pub const STRONG_DRIVE: u32 = 0x40;

/// Strength flag: pull drive.
pub const PULL_DRIVE: u32 = 0x20;

/// Strength flag: large charge.
pub const LARGE_CHARGE: u32 = 0x10;

/// Strength flag: weak drive.
pub const WEAK_DRIVE: u32 = 0x08;

/// Strength flag: medium charge.
pub const MEDIUM_CHARGE: u32 = 0x04;

/// Strength flag: small charge.
pub const SMALL_CHARGE: u32 = 0x02;

/// Strength flag: high impedance.
pub const HI_Z: u32 = 0x01;

impl StrengthValue {
    /// Wrap a native strength bit mask.
    pub fn from_bits(bits: u32) -> (s: Self)
        ensures
            s.bits == bits,
    {
        StrengthValue { bits }
    }

    /// Whether every bit of `flag` is set in this mask.
    pub fn contains(&self, flag: u32) -> (r: bool)
        ensures
            r == (self.bits & flag == flag),
    {
        self.bits & flag == flag
    }

    /// The display form of this mask: the names of the set flags, from
    /// supply drive down to high impedance, joined by a separator.
    pub open spec fn spec_names(self) -> Seq<char> {
        let s = Seq::<char>::empty();
        let s = if self.bits & SUPPLY_DRIVE == SUPPLY_DRIVE {
            sep_append(s, "SupplyDrive"@)
        } else {
            s
        };
        let s = if self.bits & STRONG_DRIVE == STRONG_DRIVE {
            sep_append(s, "StrongDrive"@)
        } else {
            s
        };
        let s = if self.bits & PULL_DRIVE == PULL_DRIVE {
            sep_append(s, "PullDrive"@)
        } else {
            s
        };
        let s = if self.bits & LARGE_CHARGE == LARGE_CHARGE {
            sep_append(s, "LargeCharge"@)
        } else {
            s
        };
        let s = if self.bits & WEAK_DRIVE == WEAK_DRIVE {
            sep_append(s, "WeakDrive"@)
        } else {
            s
        };
        let s = if self.bits & MEDIUM_CHARGE == MEDIUM_CHARGE {
            sep_append(s, "MediumCharge"@)
        } else {
            s
        };
        let s = if self.bits & SMALL_CHARGE == SMALL_CHARGE {
            sep_append(s, "SmallCharge"@)
        } else {
            s
        };
        let s = if self.bits & HI_Z == HI_Z {
            sep_append(s, "HiZ"@)
        } else {
            s
        };
        s
    }

    /// Render the mask as the names of its set flags joined by `" | "`, in
    /// order from supply drive down to high impedance; an empty mask is the
    /// empty string.
    pub fn names_string(&self) -> (r: String)
        ensures
            r@ == self.spec_names(),
    {
        let mut s = String::new();
        if self.contains(SUPPLY_DRIVE) {
            append_name(&mut s, "SupplyDrive");
        }
        if self.contains(STRONG_DRIVE) {
            append_name(&mut s, "StrongDrive");
        }
        if self.contains(PULL_DRIVE) {
            append_name(&mut s, "PullDrive");
        }
        if self.contains(LARGE_CHARGE) {
            append_name(&mut s, "LargeCharge");
        }
        if self.contains(WEAK_DRIVE) {
            append_name(&mut s, "WeakDrive");
        }
        if self.contains(MEDIUM_CHARGE) {
            append_name(&mut s, "MediumCharge");
        }
        if self.contains(SMALL_CHARGE) {
            append_name(&mut s, "SmallCharge");
        }
        if self.contains(HI_Z) {
            append_name(&mut s, "HiZ");
        }
        s
    }
}

/// One name appended to a listing: bare at the front, after a separator
/// everywhere else.
pub open spec fn sep_append(acc: Seq<char>, name: Seq<char>) -> Seq<char> {
    if acc.len() == 0 {
        name
    } else {
        acc + " | "@ + name
    }
}

/// Append one flag name, with the separator where the listing has begun.
fn append_name(s: &mut String, name: &str)
    ensures
        final(s)@ == sep_append(old(s)@, name@),
{
    if s.as_str().is_empty() {
        s.append(name);
        proof {
            assert(Seq::<char>::empty() + name@ =~= name@);
        }
    } else {
        s.append(" | ");
        s.append(name);
    }
}

/// A decoded native value. Textual encodings hold owned copies of the native
/// text; the real variant holds the raw bit pattern of the native 64-bit
/// float; a vector holds its four-state bits with the most significant bit
/// at index 0.
#[derive(Debug, PartialEq, Eq)]
pub enum Value {
    BinStr(String),
    OctStr(String),
    HexStr(String),
    DecStr(String),
    Scalar(ScalarValue),
    Int(i32),
    Real(u64),
    String(String),
    Vector(Vec<ScalarValue>),
    Strength(StrengthValue),
    Time(Time),
    ObjType(u32),
    Suppress,
}

/// One word of a packed four-state vector: 32 bits spread over the two
/// parallel bit-planes `aval` and `bval`.
#[derive(Clone, Copy, Debug, PartialEq, Eq, Structural)]
pub struct VecvalWord {
    pub aval: u32,
    pub bval: u32,
}

/// The four-state value of bit `i` (native order, bit 0 first) in a packed
/// word array: the pair (a, b) drawn from the two bit-planes of word `i / 32`
/// at position `i % 32` reads as 00 = 0, 01 = Z, 10 = 1, 11 = X. A bit past
/// the supplied words reads as 0.
pub open spec fn scalar_at(words: Seq<VecvalWord>, i: int) -> ScalarValue {
    let word_index = i / 32;
    let bit_position = (i % 32) as u32;
    if word_index >= words.len() {
        ScalarValue::Zero
    } else {
        let a = (words[word_index].aval >> bit_position) & 1u32;
        let b = (words[word_index].bval >> bit_position) & 1u32;
        if a == 0 {
            if b == 0 {
                ScalarValue::Zero
            } else {
                ScalarValue::Z
            }
        } else {
            if b == 0 {
                ScalarValue::One
            } else {
                ScalarValue::X
            }
        }
    }
}

/// Decode a packed four-state vector of `size` bits into scalars, most
/// significant bit first: output index `j` holds native bit `size - 1 - j`.
/// Bits for which too few words were supplied decode as 0 rather than
/// erroring.
pub fn vector_value_to_scalar_vector(words: &Vec<VecvalWord>, size: usize) -> (r: Vec<
    ScalarValue,
>)
    ensures
        r@.len() == size,
        forall|j: int| 0 <= j < size ==> r@[j] == scalar_at(words@, size - 1 - j),
{
    let mut r: Vec<ScalarValue> = Vec::new();
    let mut j: usize = 0;
    while j < size
        invariant
            j <= size,
            r@.len() == j,
            forall|k: int| 0 <= k < j ==> r@[k] == scalar_at(words@, size - 1 - k),
        decreases size - j,
    {
        let i: usize = size - 1 - j;
        let word_index: usize = i / 32;
        let bit_position: u32 = (i % 32) as u32;
        let s = if word_index >= words.len() {
            ScalarValue::Zero
        } else {
            let w = words[word_index];
            let a = (w.aval >> bit_position) & 1;
            let b = (w.bval >> bit_position) & 1;
            if a == 0 {
                if b == 0 {
                    ScalarValue::Zero
                } else {
                    ScalarValue::Z
                }
            } else {
                if b == 0 {
                    ScalarValue::One
                } else {
                    ScalarValue::X
                }
            }
        };
        r.push(s);
        j += 1;
    }
    r
}

/// Every bit at or past the end of the supplied words decodes as 0: a
/// truncated vector is filled with zeros, silently.
pub proof fn lemma_truncated_bits_decode_zero(words: Seq<VecvalWord>, i: int)
    requires
        i >= 32 * words.len(),
    ensures
        scalar_at(words, i) == ScalarValue::Zero,
{
    assert(i / 32 >= words.len()) by (nonlinear_arith)
        requires
            i >= 32 * words.len(),
    ;
}

/// The union field of the native value structure that an answered format
/// selects; reading any other field of the union is undefined.
pub enum UnionField {
    IntField,
    RealField,
    StrField,
    VectorField,
    NoField,
}

/// Whether a format code names one of the four textual encodings.
pub open spec fn is_text_format(format: i32) -> bool {
    format == BIN_STR_VAL || format == OCT_STR_VAL || format == DEC_STR_VAL || format
        == HEX_STR_VAL
}

/// The union field an answered format selects.
pub open spec fn spec_union_field_for(format: i32) -> UnionField {
    if is_text_format(format) || format == STRING_VAL {
        UnionField::StrField
    } else if format == SCALAR_VAL || format == INT_VAL || format == OBJ_TYPE_VAL {
        UnionField::IntField
    } else if format == REAL_VAL {
        UnionField::RealField
    } else if format == VECTOR_VAL {
        UnionField::VectorField
    } else {
        UnionField::NoField
    }
}

/// Which field of the native value union the answered format selects: the
/// glue reads exactly that field and nothing else.
pub fn union_field_for(format: i32) -> (f: UnionField)
    ensures
        f == spec_union_field_for(format),
{
    if format == BIN_STR_VAL || format == OCT_STR_VAL || format == DEC_STR_VAL || format
        == HEX_STR_VAL || format == STRING_VAL {
        UnionField::StrField
    } else if format == SCALAR_VAL || format == INT_VAL || format == OBJ_TYPE_VAL {
        UnionField::IntField
    } else if format == REAL_VAL {
        UnionField::RealField
    } else if format == VECTOR_VAL {
        UnionField::VectorField
    } else {
        UnionField::NoField
    }
}

/// The plain contents of the one union field read for an answered format.
/// `Text(None)` is a string the native side left null or that failed to
/// decode as text; `Missing` is a null vector pointer.
pub enum RawPayload {
    Int(i32),
    RealBits(u64),
    Text(Option<String>),
    Words(Vec<VecvalWord>),
    Missing,
}

/// Whether a payload is the contents of the union field that the answered
/// format selects. Only such pairs decode to a value.
pub open spec fn spec_payload_fits(format: i32, payload: RawPayload) -> bool {
    match payload {
        RawPayload::Int(_) => format == SCALAR_VAL || format == INT_VAL || format
            == OBJ_TYPE_VAL,
        RawPayload::RealBits(_) => format == REAL_VAL,
        RawPayload::Text(_) => is_text_format(format) || format == STRING_VAL,
        RawPayload::Words(_) => format == VECTOR_VAL,
        RawPayload::Missing => format == VECTOR_VAL,
    }
}

/// The characters of an optional copied native string, empty when the native
/// side offered no decodable text.
pub open spec fn spec_text_view(t: Option<String>) -> Seq<char> {
    match t {
        Some(s) => s@,
        None => Seq::<char>::empty(),
    }
}

/// Decode the answer to a value query: the format the native side actually
/// answered with (it may differ from the requested one), the contents of the
/// union field that format selects, and, for vectors, the declared bit width
/// of the object. Formats outside the decoded set, and payloads that do not
/// belong to the format, give no value.
pub fn decode_value(format: i32, payload: RawPayload, size: usize) -> (r: Option<Value>)
    ensures
        (r is Some) == spec_payload_fits(format, payload),
        is_text_format(format) ==> (payload matches RawPayload::Text(t) ==> (r matches Some(v)
            && v matches Value::BinStr(s) && s@ == spec_text_view(t))),
        format == STRING_VAL ==> (payload matches RawPayload::Text(t) ==> (r matches Some(v)
            && v matches Value::String(s) && s@ == spec_text_view(t))),
        format == SCALAR_VAL ==> (payload matches RawPayload::Int(i) ==> r == Some(
            Value::Scalar(spec_scalar_from_code(i as u32)),
        )),
        format == INT_VAL ==> (payload matches RawPayload::Int(i) ==> r == Some(Value::Int(i))),
        format == OBJ_TYPE_VAL ==> (payload matches RawPayload::Int(i) ==> r == Some(
            Value::ObjType(i as u32),
        )),
        format == REAL_VAL ==> (payload matches RawPayload::RealBits(b) ==> r == Some(
            Value::Real(b),
        )),
        format == VECTOR_VAL ==> (payload matches RawPayload::Words(w) ==> (r matches Some(v)
            && v matches Value::Vector(bits) && bits@.len() == size && (forall|j: int|
            0 <= j < size ==> bits@[j] == scalar_at(w@, size - 1 - j)))),
        format == VECTOR_VAL ==> (payload matches RawPayload::Missing ==> (r matches Some(v)
            && v matches Value::Vector(bits) && bits@.len() == 0)),
{
    if format == BIN_STR_VAL || format == OCT_STR_VAL || format == DEC_STR_VAL || format
        == HEX_STR_VAL {
        match payload {
            RawPayload::Text(Some(s)) => Some(Value::BinStr(s)),
            RawPayload::Text(None) => Some(Value::BinStr(String::new())),
            _ => None,
        }
    } else if format == SCALAR_VAL {
        match payload {
            RawPayload::Int(i) => Some(
                Value::Scalar(scalar_from_code(#[verifier::truncate] (i as u32))),
            ),
            _ => None,
        }
    } else if format == INT_VAL {
        match payload {
            RawPayload::Int(i) => Some(Value::Int(i)),
            _ => None,
        }
    } else if format == REAL_VAL {
        match payload {
            RawPayload::RealBits(b) => Some(Value::Real(b)),
            _ => None,
        }
    } else if format == STRING_VAL {
        match payload {
            RawPayload::Text(Some(s)) => Some(Value::String(s)),
            RawPayload::Text(None) => Some(Value::String(String::new())),
            _ => None,
        }
    } else if format == OBJ_TYPE_VAL {
        match payload {
            RawPayload::Int(i) => Some(Value::ObjType(#[verifier::truncate] (i as u32))),
            _ => None,
        }
    } else if format == VECTOR_VAL {
        match payload {
            RawPayload::Words(w) => Some(Value::Vector(vector_value_to_scalar_vector(&w, size))),
            RawPayload::Missing => Some(Value::Vector(Vec::new())),
            _ => None,
        }
    } else {
        // Every other representation is unsupported: an empty result, not an
        // error.
        match payload {
            _ => None,
        }
    }
}

impl Handle {
    /// What `value_query` answers: the requested format code, or nothing on
    /// a null handle.
    pub open spec fn spec_value_query(self, format: ValueType) -> Option<i32> {
        if self.spec_is_null() {
            None
        } else {
            Some(format.spec_code())
        }
    }

    /// The format code a value query on this handle sends to the native
    /// side, or nothing at all: a null handle issues no native call and its
    /// value is empty.
    pub fn value_query(&self, format: &ValueType) -> (q: Option<i32>)
        ensures
            q == self.spec_value_query(*format),
    {
        if self.is_null() {
            None
        } else {
            Some(format.code())
        }
    }
}

} // verus!
