//! Walking synthetic classes over synthetic frozen memory.

use metadump::doc::{Doc, DocValue};
use metadump::memory::{Memory, Region};
use metadump::meta::{
    BaseOff, BinType, Class, ContainerI, ContainerIVtable, ElemEntry, InstanceEntry, MapConstIter,
    MapConstIterI, MapConstIterIVtable, MapI, MapIVtable, PairEntry, Property, SizeEntry,
    TargetWorld,
};
use metadump::meta_dump::{
    dump_class_defaults, dump_instance_properties, dump_instance_property, is_empty, HookEvent,
};
use metadump::MetaError;

fn scalar_prop(hash: u32, offset: u32, kind: BinType) -> Property {
    Property {
        other_class: None,
        hash,
        offset,
        bitmask: 0,
        value_type: kind,
        container: None,
        map: None,
        unkptr: 0,
    }
}

fn bare_class(hash: u32, ctor: Option<u64>, dtor: Option<u64>, props: Vec<Property>) -> Class {
    Class {
        upcast_secondary_fn: None,
        hash,
        constructor_fn: ctor,
        destructor_fn: dtor,
        inplace_constructor_fn: None,
        inplace_destructor_fn: None,
        register_fn: None,
        base_class: None,
        class_size: 16,
        alignment: 4,
        is_value: false,
        is_secondary_base: false,
        is_unk5: false,
        properties: props,
        secondary_bases: Vec::new(),
        secondary_children: Vec::new(),
    }
}

fn world_with(regions: Vec<Region>, instances: Vec<InstanceEntry>) -> TargetWorld {
    TargetWorld { mem: Memory { regions }, instances }
}

fn dyn_container(kind: BinType, size_of: Vec<SizeEntry>, elems: Vec<ElemEntry>) -> ContainerI {
    ContainerI {
        vtable: ContainerIVtable { addr: 0x9000, get_size: size_of, get_const: elems, get_fixed_size: -1 },
        value_type: kind,
        value_size: 1,
    }
}

#[test]
fn empty_class_dumps_empty_document_without_hooks() {
    let classes = vec![bare_class(5, Some(0x100), Some(0x200), Vec::new())];
    let world = world_with(Vec::new(), vec![InstanceEntry { class_hash: 5, addr: 0x5000 }]);
    let (r, hooks) = dump_class_defaults(&classes, 0, &world);
    assert_eq!(r, Ok(DocValue::Obj(Doc { entries: Vec::new() })));
    assert!(hooks.is_empty());
}

#[test]
fn interface_dumps_null_document_without_hooks() {
    let classes = vec![bare_class(5, None, None, vec![scalar_prop(1, 0, BinType::U32)])];
    let world = world_with(Vec::new(), Vec::new());
    let (r, hooks) = dump_class_defaults(&classes, 0, &world);
    assert_eq!(r, Ok(DocValue::Null));
    assert!(hooks.is_empty());
}

#[test]
fn u32_default_is_the_number_one() {
    let classes = vec![bare_class(5, Some(0x100), Some(0x200), vec![scalar_prop(0xA, 0, BinType::U32)])];
    let world = world_with(
        vec![Region { base: 0x5000, bytes: vec![0x01, 0x00, 0x00, 0x00] }],
        vec![InstanceEntry { class_hash: 5, addr: 0x5000 }],
    );
    let (r, hooks) = dump_class_defaults(&classes, 0, &world);
    match r {
        Ok(DocValue::Obj(d)) => {
            assert_eq!(d.entries.len(), 1);
            assert_eq!(d.entries[0].key, "0x0000000a");
            assert_eq!(d.entries[0].value, DocValue::UInt(1));
        },
        other => panic!("unexpected document: {:?}", other),
    }
    assert_eq!(hooks, vec![HookEvent::Constructed(0x5000), HookEvent::Destroyed(0x5000)]);
}

#[test]
fn hash_property_dumps_lowercase_hex_string() {
    let classes = vec![bare_class(7, Some(1), Some(2), vec![scalar_prop(0xB, 0, BinType::Hash)])];
    let world = world_with(
        vec![Region { base: 0x6000, bytes: vec![0xEF, 0xBE, 0xAD, 0xDE] }],
        vec![InstanceEntry { class_hash: 7, addr: 0x6000 }],
    );
    let (r, _) = dump_class_defaults(&classes, 0, &world);
    match r {
        Ok(DocValue::Obj(d)) => {
            assert_eq!(d.entries[0].value, DocValue::Text(String::from("0xdeadbeef")));
        },
        other => panic!("unexpected document: {:?}", other),
    }
}

#[test]
fn list_dumps_three_elements_in_index_order() {
    let inst = 0x7000u64;
    let cont = dyn_container(
        BinType::I8,
        vec![SizeEntry { instance: inst, size: 3 }],
        vec![
            ElemEntry { instance: inst, index: 0, addr: 0x7100 },
            ElemEntry { instance: inst, index: 1, addr: 0x7101 },
            ElemEntry { instance: inst, index: 2, addr: 0x7102 },
        ],
    );
    let prop = Property {
        other_class: None,
        hash: 0xC,
        offset: 0,
        bitmask: 0,
        value_type: BinType::List,
        container: Some(cont),
        map: None,
        unkptr: 0,
    };
    let mem = Memory { regions: vec![Region { base: 0x7100, bytes: vec![7, 250, 3] }] };
    let r = dump_instance_property(&mem, inst, &prop);
    assert_eq!(
        r,
        Ok(DocValue::Arr(vec![DocValue::Int(7), DocValue::Int(-6), DocValue::Int(3)]))
    );
}

#[test]
fn non_empty_map_is_unsupported_and_still_destroys() {
    let map = MapI {
        vtable: MapIVtable {
            addr: 0x9100,
            get_size: vec![SizeEntry { instance: 0x8000, size: 1 }],
            iter_const: Vec::new(),
        },
        key_type: BinType::Hash,
        value_type: BinType::U32,
    };
    let prop = Property {
        other_class: None,
        hash: 0xD,
        offset: 0,
        bitmask: 0,
        value_type: BinType::Dict,
        container: None,
        map: Some(map),
        unkptr: 0,
    };
    let classes = vec![bare_class(9, Some(1), Some(2), vec![prop])];
    let world = world_with(Vec::new(), vec![InstanceEntry { class_hash: 9, addr: 0x8000 }]);
    let (r, hooks) = dump_class_defaults(&classes, 0, &world);
    assert_eq!(r, Err(MetaError::UnsupportedState));
    // The default instance is destroyed even though the walk failed.
    assert_eq!(hooks, vec![HookEvent::Constructed(0x8000), HookEvent::Destroyed(0x8000)]);
}

#[test]
fn empty_map_dumps_empty_object() {
    let map = MapI {
        vtable: MapIVtable { addr: 0x9100, get_size: Vec::new(), iter_const: Vec::new() },
        key_type: BinType::Hash,
        value_type: BinType::U32,
    };
    let prop = Property {
        other_class: None,
        hash: 0xD,
        offset: 0,
        bitmask: 0,
        value_type: BinType::Dict,
        container: None,
        map: Some(map),
        unkptr: 0,
    };
    let mem = Memory { regions: Vec::new() };
    let r = dump_instance_property(&mem, 0x8000, &prop);
    assert_eq!(r, Ok(DocValue::Obj(Doc { entries: Vec::new() })));
}

#[test]
fn missing_destructor_is_unavailable_operation() {
    let classes = vec![bare_class(5, Some(0x100), None, vec![scalar_prop(1, 0, BinType::U8)])];
    let world = world_with(Vec::new(), vec![InstanceEntry { class_hash: 5, addr: 0x5000 }]);
    let (r, hooks) = dump_class_defaults(&classes, 0, &world);
    assert_eq!(r, Err(MetaError::UnavailableOperation));
    assert!(hooks.is_empty());
}

#[test]
fn create_instance_fails_on_interface() {
    let c = bare_class(5, None, None, Vec::new());
    let world = world_with(Vec::new(), Vec::new());
    assert_eq!(c.create_instance(&world), Err(MetaError::UnavailableOperation));
}

#[test]
fn destroy_instance_fails_without_destructor() {
    let c = bare_class(5, Some(1), None, Vec::new());
    let world = world_with(Vec::new(), Vec::new());
    assert_eq!(c.destroy_instance(&world, 0x5000), Err(MetaError::UnavailableOperation));
}

#[test]
fn composite_element_kind_aborts_the_property() {
    let inst = 0x7000u64;
    let cont = dyn_container(
        BinType::List,
        vec![SizeEntry { instance: inst, size: 1 }],
        vec![ElemEntry { instance: inst, index: 0, addr: 0x7100 }],
    );
    let prop = Property {
        other_class: None,
        hash: 1,
        offset: 0,
        bitmask: 0,
        value_type: BinType::List,
        container: Some(cont),
        map: None,
        unkptr: 0,
    };
    let mem = Memory { regions: Vec::new() };
    assert_eq!(dump_instance_property(&mem, inst, &prop), Err(MetaError::UnsupportedState));
}

#[test]
fn empty_list_of_composite_kind_stays_empty() {
    // With zero elements nothing is dumped, so the bad element kind is
    // never exercised: the nestability check happens per element.
    let inst = 0x7000u64;
    let cont = dyn_container(BinType::List, Vec::new(), Vec::new());
    let prop = Property {
        other_class: None,
        hash: 1,
        offset: 0,
        bitmask: 0,
        value_type: BinType::List,
        container: Some(cont),
        map: None,
        unkptr: 0,
    };
    let mem = Memory { regions: Vec::new() };
    assert_eq!(dump_instance_property(&mem, inst, &prop), Ok(DocValue::Arr(Vec::new())));
}

#[test]
fn missing_container_capability_is_unsupported() {
    let prop = Property {
        other_class: None,
        hash: 1,
        offset: 0,
        bitmask: 0,
        value_type: BinType::List,
        container: None,
        map: None,
        unkptr: 0,
    };
    let mem = Memory { regions: Vec::new() };
    assert_eq!(dump_instance_property(&mem, 0x7000, &prop), Err(MetaError::UnsupportedState));
}

#[test]
fn option_with_zero_elements_is_null() {
    let inst = 0x7000u64;
    let cont = dyn_container(BinType::U8, Vec::new(), Vec::new());
    let prop = Property {
        other_class: None,
        hash: 1,
        offset: 0,
        bitmask: 0,
        value_type: BinType::Opt,
        container: Some(cont),
        map: None,
        unkptr: 0,
    };
    let mem = Memory { regions: Vec::new() };
    assert_eq!(dump_instance_property(&mem, inst, &prop), Ok(DocValue::Null));
}

#[test]
fn option_with_one_element_dumps_it_in_place() {
    let inst = 0x7000u64;
    let cont = dyn_container(
        BinType::U8,
        vec![SizeEntry { instance: inst, size: 1 }],
        Vec::new(),
    );
    let prop = Property {
        other_class: None,
        hash: 1,
        offset: 0,
        bitmask: 0,
        value_type: BinType::Opt,
        container: Some(cont),
        map: None,
        unkptr: 0,
    };
    let mem = Memory { regions: vec![Region { base: inst, bytes: vec![42] }] };
    assert_eq!(dump_instance_property(&mem, inst, &prop), Ok(DocValue::UInt(42)));
}

#[test]
fn flag_tests_the_given_bit() {
    let mut prop = scalar_prop(1, 0, BinType::Flag);
    prop.bitmask = 2;
    let mem = Memory { regions: vec![Region { base: 0x100, bytes: vec![0b0000_0100] }] };
    assert_eq!(dump_instance_property(&mem, 0x100, &prop), Ok(DocValue::Bool(true)));
    let mut low = scalar_prop(1, 0, BinType::Flag);
    low.bitmask = 1;
    assert_eq!(dump_instance_property(&mem, 0x100, &low), Ok(DocValue::Bool(false)));
}

#[test]
fn string_property_decodes_utf8() {
    // Header at 0x100: data pointer 0x200, size 3; bytes "abc" at 0x200.
    let mut header = Vec::new();
    header.extend_from_slice(&0x200u64.to_le_bytes());
    header.extend_from_slice(&3u32.to_le_bytes());
    header.extend_from_slice(&8u32.to_le_bytes());
    let mem = Memory {
        regions: vec![
            Region { base: 0x100, bytes: header },
            Region { base: 0x200, bytes: b"abc".to_vec() },
        ],
    };
    let prop = scalar_prop(1, 0, BinType::Text);
    assert_eq!(dump_instance_property(&mem, 0x100, &prop), Ok(DocValue::Text(String::from("abc"))));
}

#[test]
fn empty_string_never_reads_its_buffer() {
    // Size zero with a wild data pointer: dumped as the empty string.
    let mut header = Vec::new();
    header.extend_from_slice(&0xFFFF_FFFF_FFFF_0000u64.to_le_bytes());
    header.extend_from_slice(&0u32.to_le_bytes());
    header.extend_from_slice(&0u32.to_le_bytes());
    let mem = Memory { regions: vec![Region { base: 0x100, bytes: header }] };
    let prop = scalar_prop(1, 0, BinType::Text);
    assert_eq!(dump_instance_property(&mem, 0x100, &prop), Ok(DocValue::Text(String::new())));
}

#[test]
fn invalid_utf8_string_is_unsupported() {
    let mut header = Vec::new();
    header.extend_from_slice(&0x200u64.to_le_bytes());
    header.extend_from_slice(&2u32.to_le_bytes());
    header.extend_from_slice(&2u32.to_le_bytes());
    let mem = Memory {
        regions: vec![
            Region { base: 0x100, bytes: header },
            Region { base: 0x200, bytes: vec![0xFF, 0xFE] },
        ],
    };
    let prop = scalar_prop(1, 0, BinType::Text);
    assert_eq!(dump_instance_property(&mem, 0x100, &prop), Err(MetaError::UnsupportedState));
}

#[test]
fn pointer_is_null_and_embed_is_empty() {
    let mem = Memory { regions: Vec::new() };
    let mut ptr = scalar_prop(1, 0, BinType::Pointer);
    ptr.other_class = Some(0);
    assert_eq!(dump_instance_property(&mem, 0, &ptr), Ok(DocValue::Null));
    let mut emb = scalar_prop(2, 0, BinType::Embed);
    emb.other_class = Some(0);
    assert_eq!(
        dump_instance_property(&mem, 0, &emb),
        Ok(DocValue::Obj(Doc { entries: Vec::new() }))
    );
    // Without the class reference both are unmodeled layouts.
    let bare = scalar_prop(3, 0, BinType::Pointer);
    assert_eq!(dump_instance_property(&mem, 0, &bare), Err(MetaError::UnsupportedState));
}

#[test]
fn base_chain_properties_come_first() {
    let base = bare_class(1, None, None, vec![scalar_prop(0x11, 0, BinType::U8)]);
    let mut derived = bare_class(2, Some(1), Some(2), vec![scalar_prop(0x22, 1, BinType::U8)]);
    derived.base_class = Some(0);
    let classes = vec![base, derived];
    let world = world_with(
        vec![Region { base: 0x100, bytes: vec![5, 6] }],
        vec![InstanceEntry { class_hash: 2, addr: 0x100 }],
    );
    let (r, _) = dump_class_defaults(&classes, 1, &world);
    match r {
        Ok(DocValue::Obj(d)) => {
            assert_eq!(d.entries.len(), 2);
            assert_eq!(d.entries[0].key, "0x00000011");
            assert_eq!(d.entries[0].value, DocValue::UInt(5));
            assert_eq!(d.entries[1].key, "0x00000022");
            assert_eq!(d.entries[1].value, DocValue::UInt(6));
        },
        other => panic!("unexpected document: {:?}", other),
    }
}

#[test]
fn base_with_its_own_constructor_is_not_merged() {
    let base = bare_class(1, Some(9), Some(9), vec![scalar_prop(0x11, 0, BinType::U8)]);
    let mut derived = bare_class(2, Some(1), Some(2), vec![scalar_prop(0x22, 1, BinType::U8)]);
    derived.base_class = Some(0);
    let classes = vec![base, derived];
    let world = world_with(
        vec![Region { base: 0x100, bytes: vec![5, 6] }],
        vec![InstanceEntry { class_hash: 2, addr: 0x100 }],
    );
    let (r, _) = dump_class_defaults(&classes, 1, &world);
    match r {
        Ok(DocValue::Obj(d)) => {
            assert_eq!(d.entries.len(), 1);
            assert_eq!(d.entries[0].key, "0x00000022");
        },
        other => panic!("unexpected document: {:?}", other),
    }
}

#[test]
fn secondary_base_applies_its_byte_offset() {
    let mixin = bare_class(1, None, None, vec![scalar_prop(0x11, 0, BinType::U8)]);
    let mut derived = bare_class(2, Some(1), Some(2), vec![scalar_prop(0x22, 0, BinType::U8)]);
    derived.secondary_bases = vec![BaseOff(0, 4)];
    let classes = vec![mixin, derived];
    let world = world_with(
        vec![Region { base: 0x100, bytes: vec![1, 2, 3, 4, 99] }],
        vec![InstanceEntry { class_hash: 2, addr: 0x100 }],
    );
    let (r, _) = dump_class_defaults(&classes, 1, &world);
    match r {
        Ok(DocValue::Obj(d)) => {
            // The secondary base's property is read at instance + 4, and
            // comes before the class's own properties.
            assert_eq!(d.entries.len(), 2);
            assert_eq!(d.entries[0].key, "0x00000011");
            assert_eq!(d.entries[0].value, DocValue::UInt(99));
            assert_eq!(d.entries[1].value, DocValue::UInt(1));
        },
        other => panic!("unexpected document: {:?}", other),
    }
}

#[test]
fn secondary_bases_alone_leave_a_class_empty() {
    // Only the single-inheritance chain counts toward emptiness, so a class
    // whose properties all come through secondary bases skips instance
    // creation and dumps an empty document.
    let mixin = bare_class(1, None, None, vec![scalar_prop(0x11, 0, BinType::U8)]);
    let mut derived = bare_class(2, Some(1), Some(2), Vec::new());
    derived.secondary_bases = vec![BaseOff(0, 4)];
    let classes = vec![mixin, derived];
    let world = world_with(Vec::new(), vec![InstanceEntry { class_hash: 2, addr: 0x100 }]);
    let (r, hooks) = dump_class_defaults(&classes, 1, &world);
    assert_eq!(r, Ok(DocValue::Obj(Doc { entries: Vec::new() })));
    assert!(hooks.is_empty());
}

#[test]
fn is_empty_follows_the_base_chain() {
    let base = bare_class(1, None, None, vec![scalar_prop(0x11, 0, BinType::U8)]);
    let mut derived = bare_class(2, Some(1), Some(2), Vec::new());
    derived.base_class = Some(0);
    let classes = vec![base, derived];
    assert!(!is_empty(&classes, 1));
    let lone = vec![bare_class(3, Some(1), Some(2), Vec::new())];
    assert!(is_empty(&lone, 0));
}

#[test]
fn dump_into_existing_document_appends() {
    let classes = vec![bare_class(5, Some(1), Some(2), vec![scalar_prop(0xA, 0, BinType::U8)])];
    let mem = Memory { regions: vec![Region { base: 0x100, bytes: vec![9] }] };
    let mut doc = Doc { entries: Vec::new() };
    let r = dump_instance_properties(&mem, &classes, 0, 0x100, &mut doc);
    assert!(r.is_ok());
    assert_eq!(doc.entries.len(), 1);
    assert_eq!(doc.entries[0].value, DocValue::UInt(9));
}

#[test]
fn map_iterator_yields_its_pairs_then_none() {
    let mut it = MapConstIter {
        ptr: MapConstIterI {
            vtable: MapConstIterIVtable {
                pairs: vec![PairEntry { key: 1, value: 2 }, PairEntry { key: 3, value: 4 }],
            },
            pos: 0,
        },
    };
    assert_eq!(it.next(), Some((1, 2)));
    assert_eq!(it.next(), Some((3, 4)));
    assert_eq!(it.next(), None);
    assert_eq!(it.next(), None);
}
