//! The self-describing type model: classes, properties, and the capability
//! tables the walker drives container and map access through.
//!
//! The target world is frozen for the whole walk, so everything a capability
//! operation would compute is recorded as data: a vtable is a table of the
//! results its operations report, keyed by the instance address they are
//! asked about.  Class references are indices into the class registry, which
//! stores every class after the classes it references, so walks over base
//! chains terminate.

use vstd::prelude::*;

use crate::memory::{wadd, Memory};
use crate::MetaError;

verus! {

/// A C++-style vector header in target memory: begin, end and capacity
/// pointers.
#[derive(Debug, Clone, Copy, PartialEq, Eq, Structural)]
pub struct StdVector {
    pub beg: u64,
    pub end: u64,
    pub cap: u64,
}

impl StdVector {
    /// Decodes the three-pointer header at `addr`.
    pub fn read(mem: &Memory, addr: u64) -> (r: StdVector)
        ensures
            r.beg == mem.spec_read_u64(addr),
            r.end == mem.spec_read_u64(wadd(addr, 8)),
            r.cap == mem.spec_read_u64(wadd(addr, 16)),
    {
        StdVector {
            beg: mem.read_u64(addr),
            end: mem.read_u64(addr.wrapping_add(8)),
            cap: mem.read_u64(addr.wrapping_add(16)),
        }
    }

    /// The element count, given the element size; zero on a degenerate
    /// header.
    pub fn size(&self, elem_size: u64) -> (r: u64)
        ensures
            r == self.spec_size(elem_size),
    {
        if elem_size == 0 || self.end < self.beg {
            0
        } else {
            (self.end - self.beg) / elem_size
        }
    }

    pub open spec fn spec_size(self, elem_size: u64) -> u64 {
        if elem_size == 0 || self.end < self.beg {
            0u64
        } else {
            ((self.end - self.beg) as u64 / elem_size) as u64
        }
    }
}

/// The target's own vector header: data pointer, size and capacity.
#[derive(Debug, Clone, Copy, PartialEq, Eq, Structural)]
pub struct RiotVector {
    pub data: u64,
    pub size: u32,
    pub capacity: u32,
}

impl RiotVector {
    /// Decodes the header at `addr`.
    pub fn read(mem: &Memory, addr: u64) -> (r: RiotVector)
        ensures
            r.data == mem.spec_read_u64(addr),
            r.size == mem.spec_read_u32(wadd(addr, 8)),
            r.capacity == mem.spec_read_u32(wadd(addr, 12)),
    {
        RiotVector {
            data: mem.read_u64(addr),
            size: mem.read_u32(addr.wrapping_add(8)),
            capacity: mem.read_u32(addr.wrapping_add(12)),
        }
    }

    /// The element count.
    pub fn size(&self) -> (r: usize)
        ensures
            r == self.size as usize,
    {
        self.size as usize
    }
}

/// The bytes of a length-prefixed target string: `n` bytes at `data_addr`.
pub open spec fn spec_string_bytes(mem: Memory, data_addr: u64, n: nat) -> Seq<u8> {
    Seq::new(n, |i: int| mem.spec_byte(wadd(data_addr, i as u64)))
}

/// The target's length-prefixed string type: a byte vector holding UTF-8.
#[derive(Debug, Clone, Copy, PartialEq, Eq, Structural)]
pub struct AString {
    pub data: RiotVector,
}

/// Relies on `String::from_utf8`: it succeeds exactly on valid UTF-8 input
/// and returns its decoding.
#[verifier::external_body]
fn utf8_string(bytes: Vec<u8>) -> (r: Option<String>)
    ensures
        r is Some <==> vstd::utf8::valid_utf8(bytes@),
        r matches Some(s) ==> s@ == vstd::utf8::decode_utf8(bytes@),
{
    match String::from_utf8(bytes) {
        Ok(s) => Some(s),
        Err(_) => None,
    }
}

impl AString {
    /// Decodes the string header at `addr`.
    pub fn read(mem: &Memory, addr: u64) -> (r: AString)
        ensures
            r.data.data == mem.spec_read_u64(addr),
            r.data.size == mem.spec_read_u32(wadd(addr, 8)),
            r.data.capacity == mem.spec_read_u32(wadd(addr, 12)),
    {
        AString { data: RiotVector::read(mem, addr) }
    }

    /// The characters this string holds in the frozen world: empty when the
    /// length is zero (the backing buffer is then never dereferenced), the
    /// decoding of its bytes otherwise, or an error on bytes that are not
    /// valid UTF-8.
    pub open spec fn spec_str(self, mem: Memory) -> Result<Seq<char>, MetaError> {
        if self.data.size == 0 {
            Ok(Seq::<char>::empty())
        } else {
            let bytes = spec_string_bytes(mem, self.data.data, self.data.size as nat);
            if vstd::utf8::valid_utf8(bytes) {
                Ok(vstd::utf8::decode_utf8(bytes))
            } else {
                Err(MetaError::UnsupportedState)
            }
        }
    }

    /// Reads the string out of the frozen world.
    pub fn str(&self, mem: &Memory) -> (r: Result<String, MetaError>)
        ensures
            match r {
                Ok(s) => self.spec_str(*mem) matches Ok(cs) && s@ == cs,
                Err(e) => self.spec_str(*mem) == Err::<Seq<char>, MetaError>(e),
            },
    {
        if self.data.size == 0 {
            Ok(String::new())
        } else {
            let n = self.data.size as usize;
            let mut bytes: Vec<u8> = Vec::new();
            let mut i: usize = 0;
            while i < n
                invariant
                    i <= n,
                    n == self.data.size,
                    bytes@.len() == i,
                    forall|k: int|
                        0 <= k < i ==> bytes@[k] == mem.spec_byte(wadd(self.data.data, k as u64)),
                decreases n - i,
            {
                let b = mem.read_u8(self.data.data.wrapping_add(i as u64));
                bytes.push(b);
                i = i + 1;
            }
            assert(bytes@ =~= spec_string_bytes(*mem, self.data.data, self.data.size as nat));
            match utf8_string(bytes) {
                Some(s) => Ok(s),
                None => Err(MetaError::UnsupportedState),
            }
        }
    }
}

/// The closed set of property kinds: scalar kinds first, then the composite
/// and container kinds, which are never legal as the element kind of another
/// composite.
#[derive(Debug, Clone, Copy, PartialEq, Eq, Structural)]
pub enum BinType {
    /// The absent kind; a property of this kind cannot be dumped.
    Empty,
    Bool,
    I8,
    U8,
    I16,
    U16,
    I32,
    U32,
    I64,
    U64,
    F32,
    Vec2,
    Vec3,
    Vec4,
    Mtx44,
    Color,
    /// A length-prefixed UTF-8 string.
    Text,
    Hash,
    File,
    List,
    List2,
    Pointer,
    Embed,
    Link,
    /// An optional value: a container of at most one element.
    Opt,
    /// A keyed map; only the empty case is supported.
    Dict,
    Flag,
}

impl BinType {
    /// The composite kinds may not nest inside a container element.
    pub open spec fn spec_is_composite(self) -> bool {
        self is List || self is List2 || self is Pointer || self is Embed || self is Link
            || self is Opt || self is Dict || self is Flag
    }
}

/// How a container stores its elements; detection beyond "fixed or not" is
/// unsupported and reports `UnknownVector`.
#[derive(Debug, Clone, Copy, PartialEq, Eq, Structural)]
pub enum ContainerStorage {
    UnknownVector,
    Opt,
    Fixed,
    StdVector,
    RitoVector,
}

/// How a map stores its pairs; detection is unsupported and reports
/// `UnknownMap`.
#[derive(Debug, Clone, Copy, PartialEq, Eq, Structural)]
pub enum MapStorage {
    UnknownMap,
    StdMap,
    StdUnorderedMap,
    RitoVectorMap,
}

/// One recorded result of a container's size operation.
#[derive(Debug, Clone, Copy, PartialEq, Eq, Structural)]
pub struct SizeEntry {
    pub instance: u64,
    pub size: usize,
}

/// One recorded result of a container's indexed-access operation.
#[derive(Debug, Clone, Copy, PartialEq, Eq, Structural)]
pub struct ElemEntry {
    pub instance: u64,
    pub index: usize,
    pub addr: u64,
}

/// The first recorded size for `instance`; zero when none is recorded, as a
/// read of unmapped memory would give.
pub open spec fn spec_size_lookup(entries: Seq<SizeEntry>, instance: u64) -> usize
    decreases entries.len(),
{
    if entries.len() == 0 {
        0usize
    } else if entries[0].instance == instance {
        entries[0].size
    } else {
        spec_size_lookup(entries.drop_first(), instance)
    }
}

/// The first recorded element address for `(instance, index)`; zero when
/// none is recorded.
pub open spec fn spec_elem_lookup(entries: Seq<ElemEntry>, instance: u64, index: usize) -> u64
    decreases entries.len(),
{
    if entries.len() == 0 {
        0u64
    } else if entries[0].instance == instance && entries[0].index == index {
        entries[0].addr
    } else {
        spec_elem_lookup(entries.drop_first(), instance, index)
    }
}

fn size_lookup(entries: &Vec<SizeEntry>, instance: u64) -> (r: usize)
    ensures
        r == spec_size_lookup(entries@, instance),
{
    let mut i: usize = 0;
    assert(entries@.skip(0) =~= entries@);
    while i < entries.len()
        invariant
            i <= entries@.len(),
            spec_size_lookup(entries@.skip(i as int), instance) == spec_size_lookup(
                entries@,
                instance,
            ),
        decreases entries@.len() - i,
    {
        if entries[i].instance == instance {
            return entries[i].size;
        }
        assert(entries@.skip(i as int).drop_first() =~= entries@.skip(i as int + 1));
        i = i + 1;
    }
    0
}

fn elem_lookup(entries: &Vec<ElemEntry>, instance: u64, index: usize) -> (r: u64)
    ensures
        r == spec_elem_lookup(entries@, instance, index),
{
    let mut i: usize = 0;
    assert(entries@.skip(0) =~= entries@);
    while i < entries.len()
        invariant
            i <= entries@.len(),
            spec_elem_lookup(entries@.skip(i as int), instance, index) == spec_elem_lookup(
                entries@,
                instance,
                index,
            ),
        decreases entries@.len() - i,
    {
        if entries[i].instance == instance && entries[i].index == index {
            return entries[i].addr;
        }
        assert(entries@.skip(i as int).drop_first() =~= entries@.skip(i as int + 1));
        i = i + 1;
    }
    0
}

/// A container capability's operation table in the frozen world: the
/// results its polymorphic operations report, and the table's own address
/// for the metadata dump.
#[derive(Debug, PartialEq, Eq)]
pub struct ContainerIVtable {
    /// Address of the table in the target, for module-relative output.
    pub addr: u64,
    /// Recorded results of the size operation, per instance.
    pub get_size: Vec<SizeEntry>,
    /// Recorded results of the indexed-access operation.
    pub get_const: Vec<ElemEntry>,
    /// Raw result of the fixed-size operation; negative means not fixed.
    pub get_fixed_size: i32,
}

/// A container capability: a fixed element kind and size, and the operation
/// table the walker drives the opaque storage through.
#[derive(Debug, PartialEq, Eq)]
pub struct ContainerI {
    pub vtable: ContainerIVtable,
    pub value_type: BinType,
    pub value_size: u32,
}

impl ContainerI {
    pub open spec fn spec_fixed_size(self) -> Option<usize> {
        if self.vtable.get_fixed_size >= 0 {
            Some(self.vtable.get_fixed_size as usize)
        } else {
            None
        }
    }

    /// The element count of `instance`: the fixed size when there is one,
    /// else the recorded dynamic size.
    pub open spec fn spec_size(self, instance: u64) -> usize {
        match self.spec_fixed_size() {
            Some(n) => n,
            None => spec_size_lookup(self.vtable.get_size@, instance),
        }
    }

    pub open spec fn spec_elem_addr(self, instance: u64, index: usize) -> u64 {
        spec_elem_lookup(self.vtable.get_const@, instance, index)
    }

    pub open spec fn spec_storage(self) -> ContainerStorage {
        if self.spec_fixed_size() is Some {
            ContainerStorage::Fixed
        } else {
            ContainerStorage::UnknownVector
        }
    }

    /// The element count the capability reports for `instance`.
    pub fn get_size(&self, instance: u64) -> (r: usize)
        ensures
            r == self.spec_size(instance),
    {
        match self.get_fixed_size() {
            Some(n) => n,
            None => size_lookup(&self.vtable.get_size, instance),
        }
    }

    /// The fixed element count, when the storage is a fixed array.
    pub fn get_fixed_size(&self) -> (r: Option<usize>)
        ensures
            r == self.spec_fixed_size(),
    {
        if self.vtable.get_fixed_size >= 0 {
            Some(self.vtable.get_fixed_size as usize)
        } else {
            None
        }
    }

    /// The address of element `index` of `instance`.
    pub fn get_const(&self, instance: u64, index: usize) -> (r: u64)
        ensures
            r == self.spec_elem_addr(instance, index),
    {
        elem_lookup(&self.vtable.get_const, instance, index)
    }

    /// Best-effort storage classification: only "fixed or not" is decidable.
    pub fn get_storage(&self) -> (r: ContainerStorage)
        ensures
            r == self.spec_storage(),
    {
        if self.get_fixed_size().is_some() {
            ContainerStorage::Fixed
        } else {
            ContainerStorage::UnknownVector
        }
    }
}

/// One key/value address pair a map iterator yields.
#[derive(Debug, Clone, Copy, PartialEq, Eq, Structural)]
pub struct PairEntry {
    pub key: u64,
    pub value: u64,
}

/// One recorded iteration: the pairs the target-side iterator yields for an
/// instance.
#[derive(Debug, PartialEq, Eq)]
pub struct IterEntry {
    pub instance: u64,
    pub pairs: Vec<PairEntry>,
}

/// The first recorded iteration for `instance`; empty when none is recorded.
pub open spec fn spec_iter_lookup(entries: Seq<IterEntry>, instance: u64) -> Seq<PairEntry>
    decreases entries.len(),
{
    if entries.len() == 0 {
        Seq::empty()
    } else if entries[0].instance == instance {
        entries[0].pairs@
    } else {
        spec_iter_lookup(entries.drop_first(), instance)
    }
}

/// A map iterator's operation table: the pairs the target-side iterator
/// will yield, in order.
#[derive(Debug, PartialEq, Eq)]
pub struct MapConstIterIVtable {
    pub pairs: Vec<PairEntry>,
}

/// The target-side iterator object: its script and its cursor.
#[derive(Debug, PartialEq, Eq)]
pub struct MapConstIterI {
    pub vtable: MapConstIterIVtable,
    pub pos: usize,
}

/// An owning handle on a map iteration.
#[derive(Debug, PartialEq, Eq)]
pub struct MapConstIter {
    pub ptr: MapConstIterI,
}

impl MapConstIter {
    /// The next key/value address pair, until the script is exhausted.
    pub fn next(&mut self) -> (r: Option<(u64, u64)>)
        ensures
            ({
                let pairs = old(self).ptr.vtable.pairs@;
                let p = old(self).ptr.pos;
                if p < pairs.len() {
                    &&& r == Some((pairs[p as int].key, pairs[p as int].value))
                    &&& final (self).ptr.pos == p + 1
                    &&& final (self).ptr.vtable == old(self).ptr.vtable
                } else {
                    &&& r is None
                    &&& *final (self) == *old(self)
                }
            }),
    {
        if self.ptr.pos < self.ptr.vtable.pairs.len() {
            let pair = self.ptr.vtable.pairs[self.ptr.pos];
            self.ptr.pos = self.ptr.pos + 1;
            Some((pair.key, pair.value))
        } else {
            None
        }
    }
}

/// A map capability's operation table in the frozen world.
#[derive(Debug, PartialEq, Eq)]
pub struct MapIVtable {
    /// Address of the table in the target, for module-relative output.
    pub addr: u64,
    /// Recorded results of the size operation, per instance.
    pub get_size: Vec<SizeEntry>,
    /// Recorded iteration scripts, per instance.
    pub iter_const: Vec<IterEntry>,
}

/// A map capability: fixed key and value kinds, and the operation table.
#[derive(Debug, PartialEq, Eq)]
pub struct MapI {
    pub vtable: MapIVtable,
    pub key_type: BinType,
    pub value_type: BinType,
}

fn clone_pairs(v: &Vec<PairEntry>) -> (r: Vec<PairEntry>)
    ensures
        r@ == v@,
{
    let mut out: Vec<PairEntry> = Vec::new();
    let mut i: usize = 0;
    while i < v.len()
        invariant
            i <= v@.len(),
            out@ == v@.subrange(0, i as int),
        decreases v@.len() - i,
    {
        out.push(v[i]);
        assert(out@ =~= v@.subrange(0, i as int + 1));
        i = i + 1;
    }
    assert(out@ =~= v@);
    out
}

impl MapI {
    pub open spec fn spec_size(self, instance: u64) -> usize {
        spec_size_lookup(self.vtable.get_size@, instance)
    }

    pub open spec fn spec_storage(self) -> MapStorage {
        MapStorage::UnknownMap
    }

    /// The pair count the capability reports for `instance`.
    pub fn get_size(&self, instance: u64) -> (r: usize)
        ensures
            r == self.spec_size(instance),
    {
        size_lookup(&self.vtable.get_size, instance)
    }

    /// Begins an iteration over `instance`, positioned at its first pair.
    pub fn iter_const(&self, instance: u64) -> (r: MapConstIter)
        ensures
            r.ptr.vtable.pairs@ == spec_iter_lookup(self.vtable.iter_const@, instance),
            r.ptr.pos == 0,
    {
        let mut i: usize = 0;
        assert(self.vtable.iter_const@.skip(0) =~= self.vtable.iter_const@);
        while i < self.vtable.iter_const.len()
            invariant
                i <= self.vtable.iter_const@.len(),
                spec_iter_lookup(self.vtable.iter_const@.skip(i as int), instance)
                    == spec_iter_lookup(self.vtable.iter_const@, instance),
            decreases self.vtable.iter_const@.len() - i,
        {
            if self.vtable.iter_const[i].instance == instance {
                let pairs = clone_pairs(&self.vtable.iter_const[i].pairs);
                return MapConstIter { ptr: MapConstIterI { vtable: MapConstIterIVtable { pairs }, pos: 0 } };
            }
            assert(self.vtable.iter_const@.skip(i as int).drop_first() =~= self.vtable.iter_const@.skip(
                i as int + 1,
            ));
            i = i + 1;
        }
        MapConstIter { ptr: MapConstIterI { vtable: MapConstIterIVtable { pairs: Vec::new() }, pos: 0 } }
    }

    /// Best-effort storage classification; always unknown, by design.
    pub fn get_storage(&self) -> (r: MapStorage)
        ensures
            r == self.spec_storage(),
    {
        MapStorage::UnknownMap
    }
}

/// One field of a class: its offset, kind, identity, and the capability
/// reference matching its kind.
#[derive(Debug, PartialEq, Eq)]
pub struct Property {
    /// The referenced class, as an index into the registry, for the kinds
    /// that need one (`Link`, `Pointer`, `Embed`, container elements).
    pub other_class: Option<usize>,
    pub hash: u32,
    pub offset: u32,
    pub bitmask: u8,
    pub value_type: BinType,
    pub container: Option<ContainerI>,
    pub map: Option<MapI>,
    pub unkptr: u64,
}

/// A base class reachable at a byte offset: the class's registry index and
/// the offset of its embedding.
#[derive(Debug, PartialEq, Eq, Clone, Copy, Structural)]
pub struct BaseOff(pub usize, pub u32);

/// One class descriptor: identity, inheritance edges, layout, flags,
/// behavior hooks (as module addresses) and the ordered property table.
#[derive(Debug, PartialEq, Eq)]
pub struct Class {
    pub upcast_secondary_fn: Option<u64>,
    pub hash: u32,
    pub constructor_fn: Option<u64>,
    pub destructor_fn: Option<u64>,
    pub inplace_constructor_fn: Option<u64>,
    pub inplace_destructor_fn: Option<u64>,
    pub register_fn: Option<u64>,
    /// The single-inheritance base, as a registry index.
    pub base_class: Option<usize>,
    pub class_size: u64,
    pub alignment: u64,
    pub is_value: bool,
    pub is_secondary_base: bool,
    pub is_unk5: bool,
    pub properties: Vec<Property>,
    pub secondary_bases: Vec<BaseOff>,
    pub secondary_children: Vec<BaseOff>,
}

/// A property's references stay inside a registry of `n` classes, and a
/// flag's bit index addresses a bit of one byte.
pub open spec fn wf_property(p: Property, n: int) -> bool {
    &&& match p.other_class {
        Some(c) => c < n,
        None => true,
    }
    &&& p.value_type is Flag ==> p.bitmask < 8
}

/// A class at registry position `i` references only classes stored before
/// it, so base chains terminate; secondary children may point anywhere in
/// the registry.
pub open spec fn wf_class(c: Class, n: int, i: int) -> bool {
    &&& match c.base_class {
        Some(b) => b < i,
        None => true,
    }
    &&& forall|k: int|
        0 <= k < c.secondary_bases@.len() ==> (#[trigger] c.secondary_bases@[k]).0 < i
    &&& forall|k: int|
        0 <= k < c.secondary_children@.len() ==> (#[trigger] c.secondary_children@[k]).0 < n
    &&& forall|k: int| 0 <= k < c.properties@.len() ==> wf_property(#[trigger] c.properties@[k], n)
}

/// The registry is stored in dependency order: every reference points to an
/// earlier position.
pub open spec fn wf_classes(classes: Seq<Class>) -> bool {
    forall|i: int|
        0 <= i < classes.len() ==> wf_class(#[trigger] classes[i], classes.len() as int, i)
}

/// One recorded default instance: the address construction of a class
/// yields in the frozen world.
#[derive(Debug, Clone, Copy, PartialEq, Eq, Structural)]
pub struct InstanceEntry {
    pub class_hash: u32,
    pub addr: u64,
}

/// The frozen target: its memory, and the default instances its
/// constructors produce.
#[derive(Debug)]
#[verifier::ext_equal]
pub struct TargetWorld {
    pub mem: Memory,
    pub instances: Vec<InstanceEntry>,
}

/// The address constructing a class yields: the first recorded instance for
/// its hash, or null when none is recorded.
pub open spec fn spec_instance_lookup(entries: Seq<InstanceEntry>, hash: u32) -> u64
    decreases entries.len(),
{
    if entries.len() == 0 {
        0u64
    } else if entries[0].class_hash == hash {
        entries[0].addr
    } else {
        spec_instance_lookup(entries.drop_first(), hash)
    }
}

pub open spec fn spec_instance_addr(world: TargetWorld, hash: u32) -> u64 {
    spec_instance_lookup(world.instances@, hash)
}

fn instance_lookup(entries: &Vec<InstanceEntry>, hash: u32) -> (r: u64)
    ensures
        r == spec_instance_lookup(entries@, hash),
{
    let mut i: usize = 0;
    assert(entries@.skip(0) =~= entries@);
    while i < entries.len()
        invariant
            i <= entries@.len(),
            spec_instance_lookup(entries@.skip(i as int), hash) == spec_instance_lookup(
                entries@,
                hash,
            ),
        decreases entries@.len() - i,
    {
        if entries[i].class_hash == hash {
            return entries[i].addr;
        }
        assert(entries@.skip(i as int).drop_first() =~= entries@.skip(i as int + 1));
        i = i + 1;
    }
    0
}

impl Class {
    /// Invokes the class's constructor hook: the address of a fresh default
    /// instance, or `UnavailableOperation` on an interface, which has no
    /// constructor.
    pub fn create_instance(&self, world: &TargetWorld) -> (r: Result<u64, MetaError>)
        ensures
            match self.constructor_fn {
                Some(_) => r == Ok::<u64, MetaError>(spec_instance_addr(*world, self.hash)),
                None => r == Err::<u64, MetaError>(MetaError::UnavailableOperation),
            },
    {
        match self.constructor_fn {
            Some(_) => Ok(instance_lookup(&world.instances, self.hash)),
            None => Err(MetaError::UnavailableOperation),
        }
    }

    /// Invokes the class's destructor hook on `instance`, or fails with
    /// `UnavailableOperation` when the class lacks one.
    pub fn destroy_instance(&self, _world: &TargetWorld, _instance: u64) -> (r: Result<
        (),
        MetaError,
    >)
        ensures
            match self.destructor_fn {
                Some(_) => r == Ok::<(), MetaError>(()),
                None => r == Err::<(), MetaError>(MetaError::UnavailableOperation),
            },
    {
        match self.destructor_fn {
            Some(_) => Ok(()),
            None => Err(MetaError::UnavailableOperation),
        }
    }
}

} // verus!
