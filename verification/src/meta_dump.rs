//! The reflection walker: given a class descriptor and a live instance
//! address in the frozen world, produces the neutral value document, by
//! dispatching on property kind, recursing into property-only base classes,
//! and constructing and destroying one default instance per class.
//!
//! Every dump function carries a full functional contract against a spec
//! mirror, so the walk provably depends on nothing but the registry and the
//! frozen world.

use vstd::prelude::*;
use vstd::string::StringExecFns;

use crate::doc::{lemma_arr_view_push, spec_arr_view, spec_value_view, Doc, DocValue, SpecDoc};
use crate::memory::{wadd, wsub, Memory};
use crate::meta::{
    spec_instance_addr, wf_class, wf_classes, wf_property, AString, BaseOff, BinType, Class,
    ContainerI, ContainerStorage, MapI, MapStorage, Property, TargetWorld,
};
use crate::MetaError;

verus! {

/// The shape of a fallible dump result: the value's shape, or its error.
pub open spec fn res_view(r: Result<DocValue, MetaError>) -> Result<SpecDoc, MetaError> {
    match r {
        Ok(d) => Ok(spec_value_view(d)),
        Err(e) => Err(e),
    }
}

// ---------------------------------------------------------------------------
// Hexadecimal formatting
// ---------------------------------------------------------------------------
pub open spec fn spec_hex_digit(d: int) -> char {
    if d == 0 {
        '0'
    } else if d == 1 {
        '1'
    } else if d == 2 {
        '2'
    } else if d == 3 {
        '3'
    } else if d == 4 {
        '4'
    } else if d == 5 {
        '5'
    } else if d == 6 {
        '6'
    } else if d == 7 {
        '7'
    } else if d == 8 {
        '8'
    } else if d == 9 {
        '9'
    } else if d == 10 {
        'a'
    } else if d == 11 {
        'b'
    } else if d == 12 {
        'c'
    } else if d == 13 {
        'd'
    } else if d == 14 {
        'e'
    } else {
        'f'
    }
}

/// The minimal-width hex digits of `v`, most significant first.
pub open spec fn spec_hex_digits(v: int) -> Seq<char>
    decreases v,
{
    if v < 16 {
        seq![spec_hex_digit(v)]
    } else {
        spec_hex_digits(v / 16).push(spec_hex_digit(v % 16))
    }
}

/// Exactly `n` hex digits of `v`, most significant first.
pub open spec fn spec_hex_fixed(v: int, n: nat) -> Seq<char>
    decreases n,
{
    if n == 0 {
        Seq::empty()
    } else {
        spec_hex_fixed(v / 16, (n - 1) as nat).push(spec_hex_digit(v % 16))
    }
}

/// A value rendered as a minimal-width, lowercase, `0x`-prefixed string.
pub open spec fn spec_dump_hex(v: u64) -> Seq<char> {
    "0x"@ + spec_hex_digits(v as int)
}

/// An identity hash rendered as a fixed-width key: `0x` and 8 hex digits.
pub open spec fn spec_hash_key(h: u32) -> Seq<char> {
    "0x"@ + spec_hex_fixed(h as int, 8)
}

fn hex_digit_str(d: u8) -> (r: &'static str)
    requires
        d < 16,
    ensures
        r@ == seq![spec_hex_digit(d as int)],
{
    if d == 0 {
        proof {
            reveal_strlit("0");
        }
        assert("0"@ =~= seq![spec_hex_digit(0int)]);
        "0"
    } else if d == 1 {
        proof {
            reveal_strlit("1");
        }
        assert("1"@ =~= seq![spec_hex_digit(1int)]);
        "1"
    } else if d == 2 {
        proof {
            reveal_strlit("2");
        }
        assert("2"@ =~= seq![spec_hex_digit(2int)]);
        "2"
    } else if d == 3 {
        proof {
            reveal_strlit("3");
        }
        assert("3"@ =~= seq![spec_hex_digit(3int)]);
        "3"
    } else if d == 4 {
        proof {
            reveal_strlit("4");
        }
        assert("4"@ =~= seq![spec_hex_digit(4int)]);
        "4"
    } else if d == 5 {
        proof {
            reveal_strlit("5");
        }
        assert("5"@ =~= seq![spec_hex_digit(5int)]);
        "5"
    } else if d == 6 {
        proof {
            reveal_strlit("6");
        }
        assert("6"@ =~= seq![spec_hex_digit(6int)]);
        "6"
    } else if d == 7 {
        proof {
            reveal_strlit("7");
        }
        assert("7"@ =~= seq![spec_hex_digit(7int)]);
        "7"
    } else if d == 8 {
        proof {
            reveal_strlit("8");
        }
        assert("8"@ =~= seq![spec_hex_digit(8int)]);
        "8"
    } else if d == 9 {
        proof {
            reveal_strlit("9");
        }
        assert("9"@ =~= seq![spec_hex_digit(9int)]);
        "9"
    } else if d == 10 {
        proof {
            reveal_strlit("a");
        }
        assert("a"@ =~= seq![spec_hex_digit(10int)]);
        "a"
    } else if d == 11 {
        proof {
            reveal_strlit("b");
        }
        assert("b"@ =~= seq![spec_hex_digit(11int)]);
        "b"
    } else if d == 12 {
        proof {
            reveal_strlit("c");
        }
        assert("c"@ =~= seq![spec_hex_digit(12int)]);
        "c"
    } else if d == 13 {
        proof {
            reveal_strlit("d");
        }
        assert("d"@ =~= seq![spec_hex_digit(13int)]);
        "d"
    } else if d == 14 {
        proof {
            reveal_strlit("e");
        }
        assert("e"@ =~= seq![spec_hex_digit(14int)]);
        "e"
    } else {
        proof {
            reveal_strlit("f");
        }
        assert("f"@ =~= seq![spec_hex_digit(15int)]);
        "f"
    }
}

fn push_hex_digits(v: u64, out: &mut String)
    ensures
        final (out)@ == old(out)@ + spec_hex_digits(v as int),
    decreases v,
{
    if v < 16 {
        let d = hex_digit_str(v as u8);
        out.append(d);
        assert(out@ =~= old(out)@ + spec_hex_digits(v as int));
    } else {
        push_hex_digits(v / 16, out);
        let d = hex_digit_str((v % 16) as u8);
        out.append(d);
        assert(out@ =~= old(out)@ + spec_hex_digits(v as int));
    }
}

fn push_hex_fixed(v: u64, n: usize, out: &mut String)
    ensures
        final (out)@ == old(out)@ + spec_hex_fixed(v as int, n as nat),
    decreases n,
{
    if n == 0 {
        assert(out@ =~= old(out)@ + spec_hex_fixed(v as int, 0));
    } else {
        push_hex_fixed(v / 16, n - 1, out);
        let d = hex_digit_str((v % 16) as u8);
        out.append(d);
        assert(out@ =~= old(out)@ + spec_hex_fixed(v as int, n as nat));
    }
}

/// Renders a value as a minimal-width, lowercase, `0x`-prefixed hex string.
pub fn dump_hex(v: u64) -> (r: String)
    ensures
        r@ == spec_dump_hex(v),
{
    let mut s = String::from_str("0x");
    push_hex_digits(v, &mut s);
    s
}

/// Renders an identity hash as a fixed-width document key.
pub fn hash_key(h: u32) -> (r: String)
    ensures
        r@ == spec_hash_key(h),
{
    let mut s = String::from_str("0x");
    push_hex_fixed(h as u64, 8, &mut s);
    s
}

// ---------------------------------------------------------------------------
// Kind and storage names, as the document spells them
// ---------------------------------------------------------------------------
pub open spec fn spec_bin_type_name(t: BinType) -> Seq<char> {
    match t {
        BinType::Empty => "None"@,
        BinType::Bool => "Bool"@,
        BinType::I8 => "I8"@,
        BinType::U8 => "U8"@,
        BinType::I16 => "I16"@,
        BinType::U16 => "U16"@,
        BinType::I32 => "I32"@,
        BinType::U32 => "U32"@,
        BinType::I64 => "I64"@,
        BinType::U64 => "U64"@,
        BinType::F32 => "F32"@,
        BinType::Vec2 => "Vec2"@,
        BinType::Vec3 => "Vec3"@,
        BinType::Vec4 => "Vec4"@,
        BinType::Mtx44 => "Mtx44"@,
        BinType::Color => "Color"@,
        BinType::Text => "String"@,
        BinType::Hash => "Hash"@,
        BinType::File => "File"@,
        BinType::List => "List"@,
        BinType::List2 => "List2"@,
        BinType::Pointer => "Pointer"@,
        BinType::Embed => "Embed"@,
        BinType::Link => "Link"@,
        BinType::Opt => "Option"@,
        BinType::Dict => "Map"@,
        BinType::Flag => "Flag"@,
    }
}

pub fn bin_type_name(t: BinType) -> (r: &'static str)
    ensures
        r@ == spec_bin_type_name(t),
{
    match t {
        BinType::Empty => "None",
        BinType::Bool => "Bool",
        BinType::I8 => "I8",
        BinType::U8 => "U8",
        BinType::I16 => "I16",
        BinType::U16 => "U16",
        BinType::I32 => "I32",
        BinType::U32 => "U32",
        BinType::I64 => "I64",
        BinType::U64 => "U64",
        BinType::F32 => "F32",
        BinType::Vec2 => "Vec2",
        BinType::Vec3 => "Vec3",
        BinType::Vec4 => "Vec4",
        BinType::Mtx44 => "Mtx44",
        BinType::Color => "Color",
        BinType::Text => "String",
        BinType::Hash => "Hash",
        BinType::File => "File",
        BinType::List => "List",
        BinType::List2 => "List2",
        BinType::Pointer => "Pointer",
        BinType::Embed => "Embed",
        BinType::Link => "Link",
        BinType::Opt => "Option",
        BinType::Dict => "Map",
        BinType::Flag => "Flag",
    }
}

pub open spec fn spec_container_storage_name(s: ContainerStorage) -> Seq<char> {
    match s {
        ContainerStorage::UnknownVector => "UnknownVector"@,
        ContainerStorage::Opt => "Option"@,
        ContainerStorage::Fixed => "Fixed"@,
        ContainerStorage::StdVector => "StdVector"@,
        ContainerStorage::RitoVector => "RitoVector"@,
    }
}

pub fn container_storage_name(s: ContainerStorage) -> (r: &'static str)
    ensures
        r@ == spec_container_storage_name(s),
{
    match s {
        ContainerStorage::UnknownVector => "UnknownVector",
        ContainerStorage::Opt => "Option",
        ContainerStorage::Fixed => "Fixed",
        ContainerStorage::StdVector => "StdVector",
        ContainerStorage::RitoVector => "RitoVector",
    }
}

pub open spec fn spec_map_storage_name(s: MapStorage) -> Seq<char> {
    match s {
        MapStorage::UnknownMap => "UnknownMap"@,
        MapStorage::StdMap => "StdMap"@,
        MapStorage::StdUnorderedMap => "StdUnorderedMap"@,
        MapStorage::RitoVectorMap => "RitoVectorMap"@,
    }
}

pub fn map_storage_name(s: MapStorage) -> (r: &'static str)
    ensures
        r@ == spec_map_storage_name(s),
{
    match s {
        MapStorage::UnknownMap => "UnknownMap",
        MapStorage::StdMap => "StdMap",
        MapStorage::StdUnorderedMap => "StdUnorderedMap",
        MapStorage::RitoVectorMap => "RitoVectorMap",
    }
}

// ---------------------------------------------------------------------------
// Signed reinterpretation of little-endian reads
// ---------------------------------------------------------------------------
pub open spec fn spec_i8(b: u8) -> int {
    if b < 0x80 {
        b as int
    } else {
        b - 0x100
    }
}

pub open spec fn spec_i16(u: u16) -> int {
    if u < 0x8000 {
        u as int
    } else {
        u - 0x1_0000
    }
}

pub open spec fn spec_i32(u: u32) -> int {
    if u < 0x8000_0000 {
        u as int
    } else {
        u - 0x1_0000_0000
    }
}

pub open spec fn spec_i64(u: u64) -> int {
    if u < 0x8000_0000_0000_0000 {
        u as int
    } else {
        u - 0x1_0000_0000_0000_0000
    }
}

fn to_i8(b: u8) -> (r: i8)
    ensures
        r as int == spec_i8(b),
{
    if b < 0x80 {
        b as i8
    } else {
        -((0xFFu8 - b) as i8) - 1
    }
}

fn to_i16(u: u16) -> (r: i16)
    ensures
        r as int == spec_i16(u),
{
    if u < 0x8000 {
        u as i16
    } else {
        -((0xFFFFu16 - u) as i16) - 1
    }
}

fn to_i32(u: u32) -> (r: i32)
    ensures
        r as int == spec_i32(u),
{
    if u < 0x8000_0000 {
        u as i32
    } else {
        -((0xFFFF_FFFFu32 - u) as i32) - 1
    }
}

fn to_i64(u: u64) -> (r: i64)
    ensures
        r as int == spec_i64(u),
{
    if u < 0x8000_0000_0000_0000 {
        u as i64
    } else {
        -((0xFFFF_FFFF_FFFF_FFFFu64 - u) as i64) - 1
    }
}

// ---------------------------------------------------------------------------
// Leaf instance dumps
// ---------------------------------------------------------------------------
pub open spec fn spec_dump_instance_bool(mem: Memory, addr: u64) -> SpecDoc {
    SpecDoc::Bool(mem.spec_byte(addr) != 0)
}

/// A boolean: one byte, false exactly when zero.
pub fn dump_instance_bool(mem: &Memory, addr: u64) -> (r: DocValue)
    ensures
        r@ == spec_dump_instance_bool(*mem, addr),
{
    let b = mem.read_u8(addr);
    DocValue::Bool(b != 0)
}

pub open spec fn spec_dump_instance_num(mem: Memory, addr: u64, kind: BinType) -> SpecDoc {
    match kind {
        BinType::I8 => SpecDoc::Int(spec_i8(mem.spec_byte(addr)) as i64),
        BinType::U8 => SpecDoc::UInt(mem.spec_byte(addr) as u64),
        BinType::I16 => SpecDoc::Int(spec_i16(mem.spec_read_u16(addr)) as i64),
        BinType::U16 => SpecDoc::UInt(mem.spec_read_u16(addr) as u64),
        BinType::I32 => SpecDoc::Int(spec_i32(mem.spec_read_u32(addr)) as i64),
        BinType::U32 => SpecDoc::UInt(mem.spec_read_u32(addr) as u64),
        BinType::I64 => SpecDoc::Int(spec_i64(mem.spec_read_u64(addr)) as i64),
        BinType::U64 => SpecDoc::UInt(mem.spec_read_u64(addr)),
        _ => SpecDoc::Null,
    }
}

/// An integer scalar, signed or unsigned, of 1, 2, 4 or 8 bytes.
pub fn dump_instance_num(mem: &Memory, addr: u64, kind: BinType) -> (r: DocValue)
    requires
        kind is I8 || kind is U8 || kind is I16 || kind is U16 || kind is I32 || kind is U32
            || kind is I64 || kind is U64,
    ensures
        r@ == spec_dump_instance_num(*mem, addr, kind),
{
    match kind {
        BinType::I8 => DocValue::Int(to_i8(mem.read_u8(addr)) as i64),
        BinType::U8 => DocValue::UInt(mem.read_u8(addr) as u64),
        BinType::I16 => DocValue::Int(to_i16(mem.read_u16(addr)) as i64),
        BinType::U16 => DocValue::UInt(mem.read_u16(addr) as u64),
        BinType::I32 => DocValue::Int(to_i32(mem.read_u32(addr)) as i64),
        BinType::U32 => DocValue::UInt(mem.read_u32(addr) as u64),
        BinType::I64 => DocValue::Int(to_i64(mem.read_u64(addr))),
        _ => DocValue::UInt(mem.read_u64(addr)),
    }
}

pub open spec fn spec_dump_instance_f32(mem: Memory, addr: u64) -> SpecDoc {
    SpecDoc::F32Bits(mem.spec_read_u32(addr))
}

/// A 32-bit float, carried as its raw bit pattern.
pub fn dump_instance_f32(mem: &Memory, addr: u64) -> (r: DocValue)
    ensures
        r@ == spec_dump_instance_f32(*mem, addr),
{
    DocValue::F32Bits(mem.read_u32(addr))
}

pub open spec fn spec_dump_instance_vec(mem: Memory, addr: u64, n: nat) -> SpecDoc {
    SpecDoc::Arr(Seq::new(n, |i: int| SpecDoc::F32Bits(mem.spec_read_u32(wadd(addr, (4 * i) as u64)))))
}

/// A fixed-length float vector: `n` consecutive 32-bit floats.
pub fn dump_instance_vec(mem: &Memory, addr: u64, n: usize) -> (r: DocValue)
    requires
        n <= 4,
    ensures
        r@ == spec_dump_instance_vec(*mem, addr, n as nat),
{
    let ghost target = Seq::new(
        n as nat,
        |i: int| SpecDoc::F32Bits(mem.spec_read_u32(wadd(addr, (4 * i) as u64))),
    );
    let mut out: Vec<DocValue> = Vec::new();
    let mut i: usize = 0;
    while i < n
        invariant
            i <= n <= 4,
            target == Seq::new(
                n as nat,
                |k: int| SpecDoc::F32Bits(mem.spec_read_u32(wadd(addr, (4 * k) as u64))),
            ),
            spec_arr_view(out@) =~= target.take(i as int),
        decreases n - i,
    {
        let v = DocValue::F32Bits(mem.read_u32(addr.wrapping_add((4 * i) as u64)));
        proof {
            lemma_arr_view_push(out@, v);
        }
        out.push(v);
        assert(spec_arr_view(out@) =~= target.take(i as int + 1));
        i = i + 1;
    }
    assert(spec_arr_view(out@) =~= target);
    DocValue::Arr(out)
}

pub open spec fn spec_mtx_row(mem: Memory, addr: u64, r: int) -> SpecDoc {
    SpecDoc::Arr(
        Seq::new(
            4,
            |c: int| SpecDoc::F32Bits(mem.spec_read_u32(wadd(addr, (16 * r + 4 * c) as u64))),
        ),
    )
}

pub open spec fn spec_dump_instance_mtx44(mem: Memory, addr: u64) -> SpecDoc {
    SpecDoc::Arr(Seq::new(4, |r: int| spec_mtx_row(mem, addr, r)))
}

/// A 4x4 row-major float matrix: four rows of four 32-bit floats.
pub fn dump_instance_mtx44(mem: &Memory, addr: u64) -> (r: DocValue)
    ensures
        r@ == spec_dump_instance_mtx44(*mem, addr),
{
    let ghost target = Seq::new(4, |r: int| spec_mtx_row(*mem, addr, r));
    let mut rows: Vec<DocValue> = Vec::new();
    let mut r: usize = 0;
    while r < 4
        invariant
            r <= 4,
            target == Seq::new(4, |k: int| spec_mtx_row(*mem, addr, k)),
            spec_arr_view(rows@) =~= target.take(r as int),
        decreases 4 - r,
    {
        let ghost row_target = Seq::new(
            4,
            |c: int| SpecDoc::F32Bits(mem.spec_read_u32(wadd(addr, (16 * (r as int) + 4 * c) as u64))),
        );
        let mut row: Vec<DocValue> = Vec::new();
        let mut c: usize = 0;
        while c < 4
            invariant
                c <= 4,
                r < 4,
                row_target == Seq::new(
                    4,
                    |k: int| SpecDoc::F32Bits(
                        mem.spec_read_u32(wadd(addr, (16 * (r as int) + 4 * k) as u64)),
                    ),
                ),
                spec_arr_view(row@) =~= row_target.take(c as int),
            decreases 4 - c,
        {
            let v = DocValue::F32Bits(mem.read_u32(addr.wrapping_add((16 * r + 4 * c) as u64)));
            proof {
                lemma_arr_view_push(row@, v);
            }
            row.push(v);
            assert(spec_arr_view(row@) =~= row_target.take(c as int + 1));
            c = c + 1;
        }
        assert(spec_arr_view(row@) =~= row_target);
        let rv = DocValue::Arr(row);
        assert(rv@ == spec_mtx_row(*mem, addr, r as int));
        proof {
            lemma_arr_view_push(rows@, rv);
        }
        rows.push(rv);
        assert(spec_arr_view(rows@) =~= target.take(r as int + 1));
        r = r + 1;
    }
    assert(spec_arr_view(rows@) =~= target);
    DocValue::Arr(rows)
}

pub open spec fn spec_dump_instance_color(mem: Memory, addr: u64) -> SpecDoc {
    SpecDoc::Arr(Seq::new(4, |i: int| SpecDoc::UInt(mem.spec_byte(wadd(addr, i as u64)) as u64)))
}

/// A color: four consecutive byte channels.
pub fn dump_instance_color(mem: &Memory, addr: u64) -> (r: DocValue)
    ensures
        r@ == spec_dump_instance_color(*mem, addr),
{
    let ghost target = Seq::new(
        4,
        |i: int| SpecDoc::UInt(mem.spec_byte(wadd(addr, i as u64)) as u64),
    );
    let mut out: Vec<DocValue> = Vec::new();
    let mut i: usize = 0;
    while i < 4
        invariant
            i <= 4,
            target == Seq::new(4, |k: int| SpecDoc::UInt(mem.spec_byte(wadd(addr, k as u64)) as u64)),
            spec_arr_view(out@) =~= target.take(i as int),
        decreases 4 - i,
    {
        let v = DocValue::UInt(mem.read_u8(addr.wrapping_add(i as u64)) as u64);
        proof {
            lemma_arr_view_push(out@, v);
        }
        out.push(v);
        assert(spec_arr_view(out@) =~= target.take(i as int + 1));
        i = i + 1;
    }
    assert(spec_arr_view(out@) =~= target);
    DocValue::Arr(out)
}

pub open spec fn spec_astring_at(mem: Memory, addr: u64) -> AString {
    AString {
        data: crate::meta::RiotVector {
            data: mem.spec_read_u64(addr),
            size: mem.spec_read_u32(wadd(addr, 8)),
            capacity: mem.spec_read_u32(wadd(addr, 12)),
        },
    }
}

pub open spec fn spec_dump_instance_string(mem: Memory, addr: u64) -> Result<SpecDoc, MetaError> {
    match spec_astring_at(mem, addr).spec_str(mem) {
        Ok(cs) => Ok(SpecDoc::Text(cs)),
        Err(e) => Err(e),
    }
}

/// A length-prefixed string, decoded as UTF-8; an empty string's backing
/// buffer is never dereferenced.
pub fn dump_instance_string(mem: &Memory, addr: u64) -> (r: Result<DocValue, MetaError>)
    ensures
        res_view(r) == spec_dump_instance_string(*mem, addr),
{
    let s = AString::read(mem, addr);
    assert(s == spec_astring_at(*mem, addr));
    match s.str(mem) {
        Ok(text) => Ok(DocValue::Text(text)),
        Err(e) => Err(e),
    }
}

pub open spec fn spec_dump_instance_hash(mem: Memory, addr: u64) -> SpecDoc {
    SpecDoc::Text(spec_dump_hex(mem.spec_read_u32(addr) as u64))
}

/// A 32-bit content hash, emitted as a hex string, never as a number.
pub fn dump_instance_hash(mem: &Memory, addr: u64) -> (r: DocValue)
    ensures
        r@ == spec_dump_instance_hash(*mem, addr),
{
    let v = mem.read_u32(addr);
    DocValue::Text(dump_hex(v as u64))
}

/// A link to another object, dumped as its 32-bit hash.
pub fn dump_instance_link(mem: &Memory, addr: u64) -> (r: DocValue)
    ensures
        r@ == spec_dump_instance_hash(*mem, addr),
{
    dump_instance_hash(mem, addr)
}

pub open spec fn spec_dump_instance_path(mem: Memory, addr: u64) -> SpecDoc {
    SpecDoc::Text(spec_dump_hex(mem.spec_read_u64(addr)))
}

/// A 64-bit file path hash, emitted as a hex string.
pub fn dump_instance_path(mem: &Memory, addr: u64) -> (r: DocValue)
    ensures
        r@ == spec_dump_instance_path(*mem, addr),
{
    let v = mem.read_u64(addr);
    DocValue::Text(dump_hex(v))
}

/// An embedded value type: emitted as an empty keyed collection, a known
/// simplification of this walker.
pub fn dump_instance_embed() -> (r: DocValue)
    ensures
        r@ == SpecDoc::Obj(Seq::empty()),
{
    DocValue::Obj(Doc::new())
}

/// An inter-instance pointer: never followed, always null.
pub fn dump_instance_pointer() -> (r: DocValue)
    ensures
        r@ == SpecDoc::Null,
{
    DocValue::Null
}

pub open spec fn spec_dump_instance_flag(mem: Memory, addr: u64, bitmask: u8) -> SpecDoc {
    SpecDoc::Bool(mem.spec_byte(addr) & (1u8 << bitmask) != 0)
}

/// A flag: one byte, tested at the property's bit index.
pub fn dump_instance_flag(mem: &Memory, addr: u64, bitmask: u8) -> (r: DocValue)
    requires
        bitmask < 8,
    ensures
        r@ == spec_dump_instance_flag(*mem, addr, bitmask),
{
    let b = mem.read_u8(addr);
    DocValue::Bool(b & (1u8 << bitmask) != 0)
}

// ---------------------------------------------------------------------------
// Nestable dispatch and the container kinds
// ---------------------------------------------------------------------------
/// Whether a kind may stand where only scalars are legal: inside a container
/// element or an optional.  Composite kinds may not nest, the absent kind
/// cannot be dumped, and the reference kinds need their class reference.
pub open spec fn spec_nestable_ok(kind: BinType, other_class: Option<usize>) -> bool {
    match kind {
        BinType::Empty => false,
        BinType::List => false,
        BinType::List2 => false,
        BinType::Opt => false,
        BinType::Dict => false,
        BinType::Flag => false,
        BinType::Pointer => other_class is Some,
        BinType::Embed => other_class is Some,
        BinType::Link => other_class is Some,
        _ => true,
    }
}

pub open spec fn spec_dump_nestable(
    mem: Memory,
    addr: u64,
    kind: BinType,
    other_class: Option<usize>,
) -> Result<SpecDoc, MetaError> {
    if !spec_nestable_ok(kind, other_class) {
        Err(MetaError::UnsupportedState)
    } else {
        match kind {
            BinType::Bool => Ok(spec_dump_instance_bool(mem, addr)),
            BinType::I8 => Ok(spec_dump_instance_num(mem, addr, kind)),
            BinType::U8 => Ok(spec_dump_instance_num(mem, addr, kind)),
            BinType::I16 => Ok(spec_dump_instance_num(mem, addr, kind)),
            BinType::U16 => Ok(spec_dump_instance_num(mem, addr, kind)),
            BinType::I32 => Ok(spec_dump_instance_num(mem, addr, kind)),
            BinType::U32 => Ok(spec_dump_instance_num(mem, addr, kind)),
            BinType::I64 => Ok(spec_dump_instance_num(mem, addr, kind)),
            BinType::U64 => Ok(spec_dump_instance_num(mem, addr, kind)),
            BinType::F32 => Ok(spec_dump_instance_f32(mem, addr)),
            BinType::Vec2 => Ok(spec_dump_instance_vec(mem, addr, 2)),
            BinType::Vec3 => Ok(spec_dump_instance_vec(mem, addr, 3)),
            BinType::Vec4 => Ok(spec_dump_instance_vec(mem, addr, 4)),
            BinType::Mtx44 => Ok(spec_dump_instance_mtx44(mem, addr)),
            BinType::Color => Ok(spec_dump_instance_color(mem, addr)),
            BinType::Text => spec_dump_instance_string(mem, addr),
            BinType::Hash => Ok(spec_dump_instance_hash(mem, addr)),
            BinType::Link => Ok(spec_dump_instance_hash(mem, addr)),
            BinType::File => Ok(spec_dump_instance_path(mem, addr)),
            BinType::Pointer => Ok(SpecDoc::Null),
            BinType::Embed => Ok(SpecDoc::Obj(Seq::empty())),
            _ => Err(MetaError::UnsupportedState),
        }
    }
}

/// Dumps one value of a kind that may stand inside a container: the scalar
/// kinds, strings, hashes, and the reference kinds with their known
/// simplifications.  A composite kind here is an unmodeled layout.
pub fn dump_instance_nestable(
    mem: &Memory,
    addr: u64,
    kind: BinType,
    other_class: Option<usize>,
) -> (r: Result<DocValue, MetaError>)
    ensures
        res_view(r) == spec_dump_nestable(*mem, addr, kind, other_class),
{
    match kind {
        BinType::Bool => Ok(dump_instance_bool(mem, addr)),
        BinType::I8 => Ok(dump_instance_num(mem, addr, kind)),
        BinType::U8 => Ok(dump_instance_num(mem, addr, kind)),
        BinType::I16 => Ok(dump_instance_num(mem, addr, kind)),
        BinType::U16 => Ok(dump_instance_num(mem, addr, kind)),
        BinType::I32 => Ok(dump_instance_num(mem, addr, kind)),
        BinType::U32 => Ok(dump_instance_num(mem, addr, kind)),
        BinType::I64 => Ok(dump_instance_num(mem, addr, kind)),
        BinType::U64 => Ok(dump_instance_num(mem, addr, kind)),
        BinType::F32 => Ok(dump_instance_f32(mem, addr)),
        BinType::Vec2 => Ok(dump_instance_vec(mem, addr, 2)),
        BinType::Vec3 => Ok(dump_instance_vec(mem, addr, 3)),
        BinType::Vec4 => Ok(dump_instance_vec(mem, addr, 4)),
        BinType::Mtx44 => Ok(dump_instance_mtx44(mem, addr)),
        BinType::Color => Ok(dump_instance_color(mem, addr)),
        BinType::Text => dump_instance_string(mem, addr),
        BinType::Hash => Ok(dump_instance_hash(mem, addr)),
        BinType::Link => match other_class {
            Some(_) => Ok(dump_instance_link(mem, addr)),
            None => Err(MetaError::UnsupportedState),
        },
        BinType::File => Ok(dump_instance_path(mem, addr)),
        BinType::Pointer => match other_class {
            Some(_) => Ok(dump_instance_pointer()),
            None => Err(MetaError::UnsupportedState),
        },
        BinType::Embed => match other_class {
            Some(_) => Ok(dump_instance_embed()),
            None => Err(MetaError::UnsupportedState),
        },
        _ => Err(MetaError::UnsupportedState),
    }
}

/// The elements of a container from index `i` up, appended to `acc`; the
/// first element that fails fails the whole fold.
pub open spec fn spec_dump_list_from(
    mem: Memory,
    cont: ContainerI,
    instance: u64,
    other_class: Option<usize>,
    i: int,
    n: int,
    acc: Seq<SpecDoc>,
) -> Result<Seq<SpecDoc>, MetaError>
    decreases n - i,
{
    if i >= n {
        Ok(acc)
    } else {
        match spec_dump_nestable(
            mem,
            cont.spec_elem_addr(instance, i as usize),
            cont.value_type,
            other_class,
        ) {
            Err(e) => Err(e),
            Ok(v) => spec_dump_list_from(mem, cont, instance, other_class, i + 1, n, acc.push(v)),
        }
    }
}

pub open spec fn spec_dump_instance_list(
    mem: Memory,
    cont: ContainerI,
    instance: u64,
    other_class: Option<usize>,
) -> Result<SpecDoc, MetaError> {
    match spec_dump_list_from(
        mem,
        cont,
        instance,
        other_class,
        0,
        cont.spec_size(instance) as int,
        Seq::empty(),
    ) {
        Ok(s) => Ok(SpecDoc::Arr(s)),
        Err(e) => Err(e),
    }
}

/// Dumps an ordered container: one recursively dumped element per index, in
/// index order, through the capability's size and access operations.
pub fn dump_instance_list(
    mem: &Memory,
    instance: u64,
    container: &ContainerI,
    other_class: Option<usize>,
) -> (r: Result<DocValue, MetaError>)
    ensures
        res_view(r) == spec_dump_instance_list(*mem, *container, instance, other_class),
{
    let n = container.get_size(instance);
    let mut out: Vec<DocValue> = Vec::new();
    let mut i: usize = 0;
    assert(spec_arr_view(out@) =~= Seq::<SpecDoc>::empty());
    while i < n
        invariant
            i <= n,
            n == container.spec_size(instance),
            spec_dump_list_from(
                *mem,
                *container,
                instance,
                other_class,
                i as int,
                n as int,
                spec_arr_view(out@),
            ) == spec_dump_list_from(
                *mem,
                *container,
                instance,
                other_class,
                0,
                n as int,
                Seq::<SpecDoc>::empty(),
            ),
        decreases n - i,
    {
        let addr = container.get_const(instance, i);
        match dump_instance_nestable(mem, addr, container.value_type, other_class) {
            Err(e) => {
                return Err(e);
            },
            Ok(v) => {
                proof {
                    lemma_arr_view_push(out@, v);
                }
                out.push(v);
            },
        }
        i = i + 1;
    }
    Ok(DocValue::Arr(out))
}

pub open spec fn spec_dump_instance_map(m: MapI, instance: u64) -> Result<SpecDoc, MetaError> {
    if m.spec_size(instance) == 0 {
        Ok(SpecDoc::Obj(Seq::empty()))
    } else {
        Err(MetaError::UnsupportedState)
    }
}

/// Dumps a map: only the empty case is modeled; a non-empty map is an
/// unmodeled layout, never a guessed value.
pub fn dump_instance_map(instance: u64, m: &MapI) -> (r: Result<DocValue, MetaError>)
    ensures
        res_view(r) == spec_dump_instance_map(*m, instance),
{
    if m.get_size(instance) == 0 {
        Ok(DocValue::Obj(Doc::new()))
    } else {
        Err(MetaError::UnsupportedState)
    }
}

pub open spec fn spec_dump_instance_option(
    mem: Memory,
    cont: ContainerI,
    instance: u64,
    other_class: Option<usize>,
) -> Result<SpecDoc, MetaError> {
    if cont.spec_size(instance) == 0 {
        Ok(SpecDoc::Null)
    } else {
        spec_dump_nestable(mem, instance, cont.value_type, other_class)
    }
}

/// Dumps an optional value: null when empty, else the single contained
/// value dumped at the property's own address.
pub fn dump_instance_option(
    mem: &Memory,
    instance: u64,
    container: &ContainerI,
    other_class: Option<usize>,
) -> (r: Result<DocValue, MetaError>)
    ensures
        res_view(r) == spec_dump_instance_option(*mem, *container, instance, other_class),
{
    if container.get_size(instance) == 0 {
        Ok(DocValue::Null)
    } else {
        dump_instance_nestable(mem, instance, container.value_type, other_class)
    }
}

pub open spec fn spec_dump_instance_property(mem: Memory, instance: u64, p: Property) -> Result<
    SpecDoc,
    MetaError,
> {
    let addr = wadd(instance, p.offset as u64);
    match p.value_type {
        BinType::List => match p.container {
            Some(c) => spec_dump_instance_list(mem, c, addr, p.other_class),
            None => Err(MetaError::UnsupportedState),
        },
        BinType::List2 => match p.container {
            Some(c) => spec_dump_instance_list(mem, c, addr, p.other_class),
            None => Err(MetaError::UnsupportedState),
        },
        BinType::Dict => match p.map {
            Some(m) => spec_dump_instance_map(m, addr),
            None => Err(MetaError::UnsupportedState),
        },
        BinType::Opt => match p.container {
            Some(c) => spec_dump_instance_option(mem, c, addr, p.other_class),
            None => Err(MetaError::UnsupportedState),
        },
        BinType::Flag => Ok(spec_dump_instance_flag(mem, addr, p.bitmask)),
        _ => spec_dump_nestable(mem, addr, p.value_type, p.other_class),
    }
}

/// Dumps one property of an instance, dispatching on its kind; a missing
/// capability reference for a container or map kind is an unmodeled layout.
pub fn dump_instance_property(mem: &Memory, instance: u64, p: &Property) -> (r: Result<
    DocValue,
    MetaError,
>)
    requires
        p.value_type is Flag ==> p.bitmask < 8,
    ensures
        res_view(r) == spec_dump_instance_property(*mem, instance, *p),
{
    let addr = instance.wrapping_add(p.offset as u64);
    match p.value_type {
        BinType::List => match &p.container {
            Some(c) => dump_instance_list(mem, addr, c, p.other_class),
            None => Err(MetaError::UnsupportedState),
        },
        BinType::List2 => match &p.container {
            Some(c) => dump_instance_list(mem, addr, c, p.other_class),
            None => Err(MetaError::UnsupportedState),
        },
        BinType::Dict => match &p.map {
            Some(m) => dump_instance_map(addr, m),
            None => Err(MetaError::UnsupportedState),
        },
        BinType::Opt => match &p.container {
            Some(c) => dump_instance_option(mem, addr, c, p.other_class),
            None => Err(MetaError::UnsupportedState),
        },
        BinType::Flag => Ok(dump_instance_flag(mem, addr, p.bitmask)),
        _ => dump_instance_nestable(mem, addr, p.value_type, p.other_class),
    }
}

// ---------------------------------------------------------------------------
// Walking a class's property table, bases first
// ---------------------------------------------------------------------------
/// A class's own properties, keyed by hash, appended to `acc`.
pub open spec fn spec_dump_own_props(
    mem: Memory,
    props: Seq<Property>,
    instance: u64,
    acc: Seq<(Seq<char>, SpecDoc)>,
) -> Result<Seq<(Seq<char>, SpecDoc)>, MetaError>
    decreases props.len(),
{
    if props.len() == 0 {
        Ok(acc)
    } else {
        match spec_dump_instance_property(mem, instance, props[0]) {
            Err(e) => Err(e),
            Ok(v) => spec_dump_own_props(
                mem,
                props.drop_first(),
                instance,
                acc.push((spec_hash_key(props[0].hash), v)),
            ),
        }
    }
}

/// The entries a class contributes to an instance document: its base's
/// entries first (only when the base is a property-only mixin with no
/// constructor of its own), then each secondary base's at its embedding
/// offset, then one entry per own property.
pub open spec fn spec_dump_instance_properties(
    mem: Memory,
    classes: Seq<Class>,
    i: int,
    instance: u64,
    acc: Seq<(Seq<char>, SpecDoc)>,
) -> Result<Seq<(Seq<char>, SpecDoc)>, MetaError>
    decreases i, 1int, 0int,
{
    if !(0 <= i < classes.len()) {
        Ok(acc)
    } else {
        let c = classes[i];
        let after_base = match c.base_class {
            Some(b) => if 0 <= b < i && classes[b as int].constructor_fn is None {
                spec_dump_instance_properties(mem, classes, b as int, instance, acc)
            } else {
                Ok(acc)
            },
            None => Ok(acc),
        };
        match after_base {
            Err(e) => Err(e),
            Ok(a1) => match spec_dump_secondary(
                mem,
                classes,
                i,
                c.secondary_bases@,
                instance,
                a1,
            ) {
                Err(e) => Err(e),
                Ok(a2) => spec_dump_own_props(mem, c.properties@, instance, a2),
            },
        }
    }
}

/// The entries the secondary bases contribute, each walked at its declared
/// byte offset from the instance start.
pub open spec fn spec_dump_secondary(
    mem: Memory,
    classes: Seq<Class>,
    bound: int,
    bases: Seq<BaseOff>,
    instance: u64,
    acc: Seq<(Seq<char>, SpecDoc)>,
) -> Result<Seq<(Seq<char>, SpecDoc)>, MetaError>
    decreases bound, 0int, bases.len(),
{
    if bases.len() == 0 {
        Ok(acc)
    } else {
        let b = bases[0].0 as int;
        let off = bases[0].1;
        let first = if 0 <= b < bound && classes[b].constructor_fn is None {
            spec_dump_instance_properties(mem, classes, b, wadd(instance, off as u64), acc)
        } else {
            Ok(acc)
        };
        match first {
            Err(e) => Err(e),
            Ok(a) => spec_dump_secondary(mem, classes, bound, bases.drop_first(), instance, a),
        }
    }
}

/// A class is empty when it has no own properties and its whole base chain
/// has none either.
pub open spec fn spec_is_empty(classes: Seq<Class>, i: int) -> bool
    decreases i,
{
    if !(0 <= i < classes.len()) {
        true
    } else {
        classes[i].properties@.len() == 0 && (match classes[i].base_class {
            Some(b) => if (b as int) < i {
                spec_is_empty(classes, b as int)
            } else {
                true
            },
            None => true,
        })
    }
}

/// Whether a class and its whole base chain declare no properties.
pub fn is_empty(classes: &Vec<Class>, i: usize) -> (r: bool)
    requires
        wf_classes(classes@),
        i < classes@.len(),
    ensures
        r == spec_is_empty(classes@, i as int),
    decreases i,
{
    proof {
        assert(wf_class(classes@[i as int], classes@.len() as int, i as int));
    }
    if classes[i].properties.len() != 0 {
        return false;
    }
    match classes[i].base_class {
        Some(b) => is_empty(classes, b),
        None => true,
    }
}

/// Walks one class's contribution to an instance document into `results`.
#[verifier::loop_isolation(false)]
#[verifier::rlimit(50)]
pub fn dump_instance_properties(
    mem: &Memory,
    classes: &Vec<Class>,
    i: usize,
    instance: u64,
    results: &mut Doc,
) -> (r: Result<(), MetaError>)
    requires
        wf_classes(classes@),
        i < classes@.len(),
    ensures
        match spec_dump_instance_properties(
            *mem,
            classes@,
            i as int,
            instance,
            old(results)@,
        ) {
            Ok(s) => r is Ok && final (results)@ == s,
            Err(e) => r == Err::<(), MetaError>(e),
        },
    decreases i,
{
    let ghost whole = spec_dump_instance_properties(*mem, classes@, i as int, instance, results@);
    proof {
        assert(wf_class(classes@[i as int], classes@.len() as int, i as int));
    }
    let base_opt = classes[i].base_class;
    if let Some(b) = base_opt {
        if classes[b].constructor_fn.is_none() {
            match dump_instance_properties(mem, classes, b, instance, results) {
                Err(e) => {
                    return Err(e);
                },
                Ok(()) => {},
            }
        }
    }
    let ghost sec = classes@[i as int].secondary_bases@;
    let ghost props = classes@[i as int].properties@;
    assert(sec.skip(0) =~= sec);
    let mut k: usize = 0;
    while k < classes[i].secondary_bases.len()
        invariant
            wf_classes(classes@),
            i < classes@.len(),
            k <= sec.len(),
            sec == classes@[i as int].secondary_bases@,
            props == classes@[i as int].properties@,
            whole == (match spec_dump_secondary(
                *mem,
                classes@,
                i as int,
                sec.skip(k as int),
                instance,
                results@,
            ) {
                Err(e) => Err::<Seq<(Seq<char>, SpecDoc)>, MetaError>(e),
                Ok(a2) => spec_dump_own_props(*mem, props, instance, a2),
            }),
        decreases sec.len() - k,
    {
        let ghost acc0 = results@;
        proof {
            assert(wf_class(classes@[i as int], classes@.len() as int, i as int));
            assert(sec.skip(k as int)[0] == sec[k as int]);
            assert(sec.skip(k as int).drop_first() =~= sec.skip(k as int + 1));
        }
        let BaseOff(b2, off) = classes[i].secondary_bases[k];
        assert(0 <= b2 < i);
        if classes[b2].constructor_fn.is_none() {
            match dump_instance_properties(mem, classes, b2, instance.wrapping_add(off as u64), results) {
                Err(e) => {
                    proof {
                        assert(spec_dump_instance_properties(
                            *mem,
                            classes@,
                            b2 as int,
                            wadd(instance, off as u64),
                            acc0,
                        ) == Err::<Seq<(Seq<char>, SpecDoc)>, MetaError>(e));
                        assert(spec_dump_secondary(
                            *mem,
                            classes@,
                            i as int,
                            sec.skip(k as int),
                            instance,
                            acc0,
                        ) == Err::<Seq<(Seq<char>, SpecDoc)>, MetaError>(e));
                        assert(whole == Err::<Seq<(Seq<char>, SpecDoc)>, MetaError>(e));
                    }
                    return Err(e);
                },
                Ok(()) => {},
            }
        }
        k = k + 1;
    }
    assert(sec.skip(sec.len() as int) =~= Seq::<BaseOff>::empty());
    assert(props.skip(0) =~= props);
    let mut j: usize = 0;
    while j < classes[i].properties.len()
        invariant
            wf_classes(classes@),
            i < classes@.len(),
            j <= props.len(),
            props == classes@[i as int].properties@,
            whole == spec_dump_own_props(*mem, props.skip(j as int), instance, results@),
        decreases props.len() - j,
    {
        proof {
            assert(wf_class(classes@[i as int], classes@.len() as int, i as int));
            assert(wf_property(classes@[i as int].properties@[j as int], classes@.len() as int));
            assert(props.skip(j as int)[0] == props[j as int]);
            assert(props.skip(j as int).drop_first() =~= props.skip(j as int + 1));
        }
        let ghost acc0 = results@;
        let p = &classes[i].properties[j];
        match dump_instance_property(mem, instance, p) {
            Err(e) => {
                proof {
                    assert(spec_dump_instance_property(*mem, instance, props[j as int])
                        == Err::<SpecDoc, MetaError>(e));
                    assert(spec_dump_own_props(*mem, props.skip(j as int), instance, acc0)
                        == Err::<Seq<(Seq<char>, SpecDoc)>, MetaError>(e));
                    assert(whole == Err::<Seq<(Seq<char>, SpecDoc)>, MetaError>(e));
                }
                return Err(e);
            },
            Ok(v) => {
                let key = hash_key(p.hash);
                results.insert(key, v);
            },
        }
        j = j + 1;
    }
    assert(props.skip(props.len() as int) =~= Seq::<Property>::empty());
    Ok(())
}

// ---------------------------------------------------------------------------
// Default-instance capture
// ---------------------------------------------------------------------------
/// One invocation of a target behavior hook during a walk.
#[derive(Debug, Clone, Copy, PartialEq, Eq, Structural)]
pub enum HookEvent {
    /// The constructor produced a default instance at this address.
    Constructed(u64),
    /// The destructor consumed the instance at this address.
    Destroyed(u64),
}

/// The default-value document of one class, and the hook invocations the
/// walk performs: none for an interface or an empty class, and exactly one
/// balanced construct/destroy pair otherwise, whatever the dump's outcome.
pub open spec fn spec_dump_class_defaults(
    classes: Seq<Class>,
    i: int,
    world: TargetWorld,
) -> (Result<SpecDoc, MetaError>, Seq<HookEvent>) {
    let c = classes[i];
    if c.constructor_fn is None {
        (Ok(SpecDoc::Null), Seq::empty())
    } else if spec_is_empty(classes, i) {
        (Ok(SpecDoc::Obj(Seq::empty())), Seq::empty())
    } else if c.destructor_fn is None {
        (Err(MetaError::UnavailableOperation), Seq::empty())
    } else {
        let a = spec_instance_addr(world, c.hash);
        let hooks = seq![HookEvent::Constructed(a), HookEvent::Destroyed(a)];
        match spec_dump_instance_properties(world.mem, classes, i, a, Seq::empty()) {
            Ok(s) => (Ok(SpecDoc::Obj(s)), hooks),
            Err(e) => (Err(e), hooks),
        }
    }
}

/// Dumps a class's default property values from one transient default
/// instance: a null document for an interface, an empty document for an
/// empty class with no hook invoked, and otherwise one construct, one walk,
/// and one destroy, the destroy on every exit path.
pub fn dump_class_defaults(classes: &Vec<Class>, i: usize, world: &TargetWorld) -> (r: (
    Result<DocValue, MetaError>,
    Vec<HookEvent>,
))
    requires
        wf_classes(classes@),
        i < classes@.len(),
    ensures
        res_view(r.0) == spec_dump_class_defaults(classes@, i as int, *world).0,
        r.1@ == spec_dump_class_defaults(classes@, i as int, *world).1,
{
    let mut hooks: Vec<HookEvent> = Vec::new();
    assert(hooks@ =~= Seq::<HookEvent>::empty());
    if classes[i].constructor_fn.is_none() {
        return (Ok(DocValue::Null), hooks);
    }
    if is_empty(classes, i) {
        return (Ok(DocValue::Obj(Doc::new())), hooks);
    }
    if classes[i].destructor_fn.is_none() {
        return (Err(MetaError::UnavailableOperation), hooks);
    }
    let inst = match classes[i].create_instance(world) {
        Ok(a) => a,
        Err(_) => {
            assert(false);
            0
        },
    };
    hooks.push(HookEvent::Constructed(inst));
    let mut results = Doc::new();
    let rr = dump_instance_properties(&world.mem, classes, i, inst, &mut results);
    match classes[i].destroy_instance(world, inst) {
        Ok(()) => {},
        Err(_) => {
            assert(false);
        },
    }
    hooks.push(HookEvent::Destroyed(inst));
    assert(hooks@ =~= seq![HookEvent::Constructed(inst), HookEvent::Destroyed(inst)]);
    match rr {
        Ok(()) => (Ok(DocValue::Obj(results)), hooks),
        Err(e) => (Err(e), hooks),
    }
}

// ---------------------------------------------------------------------------
// Descriptor metadata
// ---------------------------------------------------------------------------
pub open spec fn spec_dump_property_container(base: u64, c: ContainerI, source: BinType) -> SpecDoc {
    SpecDoc::Obj(
        seq![
            ("vtable"@, SpecDoc::Text(spec_dump_hex(wsub(c.vtable.addr, base)))),
            ("value_type"@, SpecDoc::Text(spec_bin_type_name(c.value_type))),
            ("value_size"@, SpecDoc::UInt(c.value_size as u64)),
            (
                "fixed_size"@,
                match c.spec_fixed_size() {
                    Some(n) => SpecDoc::UInt(n as u64),
                    None => SpecDoc::Null,
                },
            ),
            (
                "storage"@,
                if source is Opt {
                    SpecDoc::Null
                } else {
                    SpecDoc::Text(spec_container_storage_name(c.spec_storage()))
                },
            ),
        ],
    )
}

/// The metadata of a container capability: its vtable's module-relative
/// address, element kind and size, fixed size if any, and the best-effort
/// storage classification, omitted for the optional kind.
pub fn dump_property_container(base: u64, container: &ContainerI, source: BinType) -> (r: DocValue)
    ensures
        r@ == spec_dump_property_container(base, *container, source),
{
    let mut d = Doc::new();
    d.insert(
        String::from_str("vtable"),
        DocValue::Text(dump_hex(container.vtable.addr.wrapping_sub(base))),
    );
    d.insert(
        String::from_str("value_type"),
        DocValue::Text(String::from_str(bin_type_name(container.value_type))),
    );
    d.insert(String::from_str("value_size"), DocValue::UInt(container.value_size as u64));
    let fixed = match container.get_fixed_size() {
        Some(n) => DocValue::UInt(n as u64),
        None => DocValue::Null,
    };
    d.insert(String::from_str("fixed_size"), fixed);
    let storage = if source == BinType::Opt {
        DocValue::Null
    } else {
        DocValue::Text(String::from_str(container_storage_name(container.get_storage())))
    };
    d.insert(String::from_str("storage"), storage);
    assert(d@ =~= spec_dump_property_container(base, *container, source)->Obj_0);
    DocValue::Obj(d)
}

pub open spec fn spec_dump_property_map(base: u64, m: MapI) -> SpecDoc {
    SpecDoc::Obj(
        seq![
            ("vtable"@, SpecDoc::Text(spec_dump_hex(wsub(m.vtable.addr, base)))),
            ("key_type"@, SpecDoc::Text(spec_bin_type_name(m.key_type))),
            ("value_type"@, SpecDoc::Text(spec_bin_type_name(m.value_type))),
            ("storage"@, SpecDoc::Text(spec_map_storage_name(m.spec_storage()))),
        ],
    )
}

/// The metadata of a map capability: its vtable's module-relative address,
/// key and value kinds, and the storage classification.
pub fn dump_property_map(base: u64, m: &MapI) -> (r: DocValue)
    ensures
        r@ == spec_dump_property_map(base, *m),
{
    let mut d = Doc::new();
    d.insert(
        String::from_str("vtable"),
        DocValue::Text(dump_hex(m.vtable.addr.wrapping_sub(base))),
    );
    d.insert(
        String::from_str("key_type"),
        DocValue::Text(String::from_str(bin_type_name(m.key_type))),
    );
    d.insert(
        String::from_str("value_type"),
        DocValue::Text(String::from_str(bin_type_name(m.value_type))),
    );
    d.insert(
        String::from_str("storage"),
        DocValue::Text(String::from_str(map_storage_name(m.get_storage()))),
    );
    assert(d@ =~= spec_dump_property_map(base, *m)->Obj_0);
    DocValue::Obj(d)
}

pub open spec fn spec_dump_property(base: u64, classes: Seq<Class>, p: Property) -> SpecDoc {
    SpecDoc::Obj(
        seq![
            (
                "other_class"@,
                match p.other_class {
                    Some(c) => SpecDoc::Text(spec_dump_hex(classes[c as int].hash as u64)),
                    None => SpecDoc::Null,
                },
            ),
            ("offset"@, SpecDoc::UInt(p.offset as u64)),
            ("bitmask"@, SpecDoc::UInt(p.bitmask as u64)),
            ("value_type"@, SpecDoc::Text(spec_bin_type_name(p.value_type))),
            (
                "container"@,
                match p.container {
                    Some(c) => spec_dump_property_container(base, c, p.value_type),
                    None => SpecDoc::Null,
                },
            ),
            (
                "map"@,
                match p.map {
                    Some(m) => spec_dump_property_map(base, m),
                    None => SpecDoc::Null,
                },
            ),
        ],
    )
}

/// The metadata of one property descriptor: referenced class, offset,
/// bit index, kind, and the capability details matching its kind.
pub fn dump_property(base: u64, classes: &Vec<Class>, p: &Property) -> (r: DocValue)
    requires
        wf_property(*p, classes@.len() as int),
    ensures
        r@ == spec_dump_property(base, classes@, *p),
{
    let mut d = Doc::new();
    let other = match p.other_class {
        Some(c) => DocValue::Text(dump_hex(classes[c].hash as u64)),
        None => DocValue::Null,
    };
    d.insert(String::from_str("other_class"), other);
    d.insert(String::from_str("offset"), DocValue::UInt(p.offset as u64));
    d.insert(String::from_str("bitmask"), DocValue::UInt(p.bitmask as u64));
    d.insert(
        String::from_str("value_type"),
        DocValue::Text(String::from_str(bin_type_name(p.value_type))),
    );
    let cont = match &p.container {
        Some(c) => dump_property_container(base, c, p.value_type),
        None => DocValue::Null,
    };
    d.insert(String::from_str("container"), cont);
    let map_doc = match &p.map {
        Some(m) => dump_property_map(base, m),
        None => DocValue::Null,
    };
    d.insert(String::from_str("map"), map_doc);
    assert(d@ =~= spec_dump_property(base, classes@, *p)->Obj_0);
    DocValue::Obj(d)
}

pub open spec fn spec_dump_property_list(base: u64, classes: Seq<Class>, props: Seq<Property>) -> SpecDoc {
    SpecDoc::Obj(
        Seq::new(
            props.len(),
            |k: int| (spec_hash_key(props[k].hash), spec_dump_property(base, classes, props[k])),
        ),
    )
}

/// The property descriptor table of one class, keyed by property hash.
#[verifier::loop_isolation(false)]
pub fn dump_property_list(base: u64, classes: &Vec<Class>, props: &Vec<Property>) -> (r: DocValue)
    requires
        forall|k: int|
            0 <= k < props@.len() ==> wf_property(#[trigger] props@[k], classes@.len() as int),
    ensures
        r@ == spec_dump_property_list(base, classes@, props@),
{
    let ghost target = spec_dump_property_list(base, classes@, props@)->Obj_0;
    let mut d = Doc::new();
    let mut j: usize = 0;
    while j < props.len()
        invariant
            j <= props@.len(),
            d@ =~= target.take(j as int),
        decreases props@.len() - j,
    {
        let key = hash_key(props[j].hash);
        let v = dump_property(base, classes, &props[j]);
        d.insert(key, v);
        assert(d@ =~= target.take(j as int + 1));
        j = j + 1;
    }
    assert(d@ =~= target);
    DocValue::Obj(d)
}

pub open spec fn spec_fn_offset_entry(base: u64, f: Option<u64>) -> SpecDoc {
    match f {
        Some(a) => SpecDoc::Text(spec_dump_hex(wsub(a, base))),
        None => SpecDoc::Null,
    }
}

fn fn_offset_entry(base: u64, f: Option<u64>) -> (r: DocValue)
    ensures
        r@ == spec_fn_offset_entry(base, f),
{
    match f {
        Some(a) => DocValue::Text(dump_hex(a.wrapping_sub(base))),
        None => DocValue::Null,
    }
}

pub open spec fn spec_dump_class_functions(base: u64, c: Class) -> SpecDoc {
    SpecDoc::Obj(
        seq![
            ("upcast_secondary"@, spec_fn_offset_entry(base, c.upcast_secondary_fn)),
            ("constructor"@, spec_fn_offset_entry(base, c.constructor_fn)),
            ("destructor"@, spec_fn_offset_entry(base, c.destructor_fn)),
            ("inplace_constructor"@, spec_fn_offset_entry(base, c.inplace_constructor_fn)),
            ("inplace_destructor"@, spec_fn_offset_entry(base, c.inplace_destructor_fn)),
            ("register"@, spec_fn_offset_entry(base, c.register_fn)),
        ],
    )
}

/// A class's behavior hooks as module-relative offsets, null where absent.
pub fn dump_class_functions(base: u64, c: &Class) -> (r: DocValue)
    ensures
        r@ == spec_dump_class_functions(base, *c),
{
    let mut d = Doc::new();
    d.insert(String::from_str("upcast_secondary"), fn_offset_entry(base, c.upcast_secondary_fn));
    d.insert(String::from_str("constructor"), fn_offset_entry(base, c.constructor_fn));
    d.insert(String::from_str("destructor"), fn_offset_entry(base, c.destructor_fn));
    d.insert(
        String::from_str("inplace_constructor"),
        fn_offset_entry(base, c.inplace_constructor_fn),
    );
    d.insert(
        String::from_str("inplace_destructor"),
        fn_offset_entry(base, c.inplace_destructor_fn),
    );
    d.insert(String::from_str("register"), fn_offset_entry(base, c.register_fn));
    assert(d@ =~= spec_dump_class_functions(base, *c)->Obj_0);
    DocValue::Obj(d)
}

pub open spec fn spec_dump_class_flags(c: Class) -> SpecDoc {
    SpecDoc::Obj(
        seq![
            ("interface"@, SpecDoc::Bool(c.constructor_fn is None)),
            ("value"@, SpecDoc::Bool(c.is_value)),
            ("secondary_base"@, SpecDoc::Bool(c.is_secondary_base)),
            ("unk5"@, SpecDoc::Bool(c.is_unk5)),
        ],
    )
}

/// A class's flag set; a class with no constructor is an interface.
pub fn dump_class_flags(c: &Class) -> (r: DocValue)
    ensures
        r@ == spec_dump_class_flags(*c),
{
    let mut d = Doc::new();
    d.insert(String::from_str("interface"), DocValue::Bool(c.constructor_fn.is_none()));
    d.insert(String::from_str("value"), DocValue::Bool(c.is_value));
    d.insert(String::from_str("secondary_base"), DocValue::Bool(c.is_secondary_base));
    d.insert(String::from_str("unk5"), DocValue::Bool(c.is_unk5));
    assert(d@ =~= spec_dump_class_flags(*c)->Obj_0);
    DocValue::Obj(d)
}

pub open spec fn spec_dump_class_secondary(classes: Seq<Class>, pairs: Seq<BaseOff>) -> SpecDoc {
    SpecDoc::Obj(
        Seq::new(
            pairs.len(),
            |k: int| (
                spec_hash_key(classes[pairs[k].0 as int].hash),
                SpecDoc::UInt(pairs[k].1 as u64),
            ),
        ),
    )
}

/// Secondary inheritance edges as a map from class identity to byte offset.
#[verifier::loop_isolation(false)]
pub fn dump_class_secondary(classes: &Vec<Class>, pairs: &Vec<BaseOff>) -> (r: DocValue)
    requires
        forall|k: int| 0 <= k < pairs@.len() ==> (#[trigger] pairs@[k]).0 < classes@.len(),
    ensures
        r@ == spec_dump_class_secondary(classes@, pairs@),
{
    let ghost target = spec_dump_class_secondary(classes@, pairs@)->Obj_0;
    let mut d = Doc::new();
    let mut j: usize = 0;
    while j < pairs.len()
        invariant
            j <= pairs@.len(),
            d@ =~= target.take(j as int),
        decreases pairs@.len() - j,
    {
        let BaseOff(b, off) = pairs[j];
        let key = hash_key(classes[b].hash);
        d.insert(key, DocValue::UInt(off as u64));
        assert(d@ =~= target.take(j as int + 1));
        j = j + 1;
    }
    assert(d@ =~= target);
    DocValue::Obj(d)
}

// ---------------------------------------------------------------------------
// Whole classes and the final document
// ---------------------------------------------------------------------------
pub open spec fn spec_dump_class(base: u64, classes: Seq<Class>, i: int, world: TargetWorld) -> Result<
    SpecDoc,
    MetaError,
> {
    let c = classes[i];
    match spec_dump_class_defaults(classes, i, world).0 {
        Err(e) => Err(e),
        Ok(defaults) => Ok(
            SpecDoc::Obj(
                seq![
                    (
                        "base"@,
                        match c.base_class {
                            Some(b) => SpecDoc::Text(spec_dump_hex(classes[b as int].hash as u64)),
                            None => SpecDoc::Null,
                        },
                    ),
                    ("secondary_bases"@, spec_dump_class_secondary(classes, c.secondary_bases@)),
                    (
                        "secondary_children"@,
                        spec_dump_class_secondary(classes, c.secondary_children@),
                    ),
                    ("size"@, SpecDoc::UInt(c.class_size)),
                    ("alignment"@, SpecDoc::UInt(c.alignment)),
                    ("is"@, spec_dump_class_flags(c)),
                    ("fn"@, spec_dump_class_functions(base, c)),
                    ("properties"@, spec_dump_property_list(base, classes, c.properties@)),
                    ("defaults"@, defaults),
                ],
            ),
        ),
    }
}

/// One class's whole document: inheritance edges, layout, flags, hook
/// offsets, the property descriptor table, and the default-value document
/// captured from a transient default instance.
pub fn dump_class(base: u64, classes: &Vec<Class>, i: usize, world: &TargetWorld) -> (r: Result<
    DocValue,
    MetaError,
>)
    requires
        wf_classes(classes@),
        i < classes@.len(),
    ensures
        res_view(r) == spec_dump_class(base, classes@, i as int, *world),
{
    proof {
        assert(wf_class(classes@[i as int], classes@.len() as int, i as int));
    }
    let (defaults_r, _hooks) = dump_class_defaults(classes, i, world);
    let defaults = match defaults_r {
        Ok(v) => v,
        Err(e) => {
            return Err(e);
        },
    };
    let mut d = Doc::new();
    let base_entry = match classes[i].base_class {
        Some(b) => DocValue::Text(dump_hex(classes[b].hash as u64)),
        None => DocValue::Null,
    };
    d.insert(String::from_str("base"), base_entry);
    d.insert(
        String::from_str("secondary_bases"),
        dump_class_secondary(classes, &classes[i].secondary_bases),
    );
    d.insert(
        String::from_str("secondary_children"),
        dump_class_secondary(classes, &classes[i].secondary_children),
    );
    d.insert(String::from_str("size"), DocValue::UInt(classes[i].class_size));
    d.insert(String::from_str("alignment"), DocValue::UInt(classes[i].alignment));
    d.insert(String::from_str("is"), dump_class_flags(&classes[i]));
    d.insert(String::from_str("fn"), dump_class_functions(base, &classes[i]));
    d.insert(
        String::from_str("properties"),
        dump_property_list(base, classes, &classes[i].properties),
    );
    d.insert(String::from_str("defaults"), defaults);
    assert(d@ =~= spec_dump_class(base, classes@, i as int, *world)->Ok_0->Obj_0);
    Ok(DocValue::Obj(d))
}

/// The classes from position `k` up, keyed by identity hash and appended to
/// `acc`; the first class that fails fails the whole dump.
pub open spec fn spec_dump_class_list_from(
    base: u64,
    classes: Seq<Class>,
    world: TargetWorld,
    k: int,
    acc: Seq<(Seq<char>, SpecDoc)>,
) -> Result<Seq<(Seq<char>, SpecDoc)>, MetaError>
    decreases classes.len() - k,
{
    if !(0 <= k < classes.len()) {
        Ok(acc)
    } else {
        match spec_dump_class(base, classes, k, world) {
            Err(e) => Err(e),
            Ok(v) => spec_dump_class_list_from(
                base,
                classes,
                world,
                k + 1,
                acc.push((spec_hash_key(classes[k].hash), v)),
            ),
        }
    }
}

pub open spec fn spec_dump_class_list(base: u64, classes: Seq<Class>, world: TargetWorld) -> Result<
    SpecDoc,
    MetaError,
> {
    match spec_dump_class_list_from(base, classes, world, 0, Seq::empty()) {
        Ok(s) => Ok(SpecDoc::Obj(s)),
        Err(e) => Err(e),
    }
}

/// Every class of the registry, walked in order and keyed by identity
/// hash.  Fatal errors propagate: there is no partial result.
#[verifier::loop_isolation(false)]
pub fn dump_class_list(base: u64, classes: &Vec<Class>, world: &TargetWorld) -> (r: Result<
    DocValue,
    MetaError,
>)
    requires
        wf_classes(classes@),
    ensures
        res_view(r) == spec_dump_class_list(base, classes@, *world),
{
    let ghost whole = spec_dump_class_list_from(base, classes@, *world, 0, Seq::empty());
    let mut d = Doc::new();
    let mut k: usize = 0;
    while k < classes.len()
        invariant
            k <= classes@.len(),
            spec_dump_class_list_from(base, classes@, *world, k as int, d@) == whole,
        decreases classes@.len() - k,
    {
        let ghost acc0 = d@;
        match dump_class(base, classes, k, world) {
            Err(e) => {
                proof {
                    assert(spec_dump_class_list_from(base, classes@, *world, k as int, acc0)
                        == Err::<Seq<(Seq<char>, SpecDoc)>, MetaError>(e));
                }
                return Err(e);
            },
            Ok(v) => {
                let key = hash_key(classes[k].hash);
                d.insert(key, v);
            },
        }
        k = k + 1;
    }
    Ok(DocValue::Obj(d))
}

pub open spec fn spec_dump_meta_document(
    version: Seq<char>,
    base: u64,
    classes: Seq<Class>,
    world: TargetWorld,
) -> Result<SpecDoc, MetaError> {
    match spec_dump_class_list(base, classes, world) {
        Err(e) => Err(e),
        Ok(cl) => Ok(SpecDoc::Obj(seq![("version"@, SpecDoc::Text(version)), ("classes"@, cl)])),
    }
}

/// The whole output document: the target's version string and one document
/// per class, keyed by identity hash.
pub fn dump_meta_document(version: &str, base: u64, classes: &Vec<Class>, world: &TargetWorld) -> (r:
    Result<DocValue, MetaError>)
    requires
        wf_classes(classes@),
    ensures
        res_view(r) == spec_dump_meta_document(version@, base, classes@, *world),
{
    let cl = match dump_class_list(base, classes, world) {
        Ok(v) => v,
        Err(e) => {
            return Err(e);
        },
    };
    let mut d = Doc::new();
    d.insert(String::from_str("version"), DocValue::Text(String::from_str(version)));
    d.insert(String::from_str("classes"), cl);
    assert(d@ =~= spec_dump_meta_document(version@, base, classes@, *world)->Ok_0->Obj_0);
    Ok(DocValue::Obj(d))
}

// ---------------------------------------------------------------------------
// Laws of the walk
// ---------------------------------------------------------------------------
/// Every walk's hook trace is balanced: it either invokes no hook at all,
/// or constructs exactly one default instance and destroys that same
/// instance, whatever the dump's outcome — no exit path leaks an instance.
pub proof fn lemma_defaults_hooks_balanced(classes: Seq<Class>, i: int, world: TargetWorld)
    ensures
        ({
            let hooks = spec_dump_class_defaults(classes, i, world).1;
            let a = spec_instance_addr(world, classes[i].hash);
            hooks == Seq::<HookEvent>::empty() || hooks == seq![
                HookEvent::Constructed(a),
                HookEvent::Destroyed(a),
            ]
        }),
{
}

/// Walking a class that has a constructor but no properties anywhere in its
/// base chain yields a non-null empty document and invokes no constructor
/// or destructor hook.
pub proof fn lemma_empty_class_walk(classes: Seq<Class>, i: int, world: TargetWorld)
    requires
        0 <= i < classes.len(),
        classes[i].constructor_fn is Some,
        spec_is_empty(classes, i),
    ensures
        spec_dump_class_defaults(classes, i, world) == (
            Ok::<SpecDoc, MetaError>(SpecDoc::Obj(Seq::empty())),
            Seq::<HookEvent>::empty(),
        ),
{
}

/// Walking an interface — a class with no constructor — yields the null
/// document and invokes no hook: no instance can exist.
pub proof fn lemma_interface_walk(classes: Seq<Class>, i: int, world: TargetWorld)
    requires
        classes[i].constructor_fn is None,
    ensures
        spec_dump_class_defaults(classes, i, world) == (
            Ok::<SpecDoc, MetaError>(SpecDoc::Null),
            Seq::<HookEvent>::empty(),
        ),
{
}

/// The walk is a function of the registry and the frozen world alone:
/// walking the same frozen data twice, with no intervening mutation, yields
/// the same document.
pub proof fn lemma_walk_repeatable(
    base1: u64,
    base2: u64,
    classes1: Seq<Class>,
    classes2: Seq<Class>,
    world1: TargetWorld,
    world2: TargetWorld,
)
    requires
        base1 == base2,
        classes1 == classes2,
        world1.mem == world2.mem,
        world1.instances == world2.instances,
    ensures
        spec_dump_class_list(base1, classes1, world1) == spec_dump_class_list(
            base2,
            classes2,
            world2,
        ),
{
    assert(world1 =~= world2);
}

} // verus!
