use sp_wasm::guest_memory::{read_transform, read_vec3, write_transform, write_vec3, GuestError};
use sp_wasm::host_functions::{
    call_transform_from_pos, call_transform_get_position, call_transform_identity,
    call_transform_set_position, host_imports, print_str, print_transform, HostImport,
};
use sp_wasm::layout::GlmVec3;
use sp_wasm::primitives::{transform_from_pos, transform_identity};
use wasmer::sys::{BaseTunables, NativeEngineExt};
use wasmer::{Engine, Memory, MemoryType, Pages, Store};

const PAGE: u32 = 65536;

fn v(x: f32, y: f32, z: f32) -> GlmVec3 {
    GlmVec3 { x: x.to_bits(), y: y.to_bits(), z: z.to_bits() }
}

/// A store whose memories reserve only what they use plus a small guard.
fn small_store() -> Store {
    let mut engine = Engine::default();
    engine.set_tunables(BaseTunables {
        static_memory_bound: Pages(0),
        static_memory_offset_guard_size: 0,
        dynamic_memory_offset_guard_size: 0x1_0000,
    });
    Store::new(engine)
}

fn one_page() -> (Store, Memory) {
    let mut store = small_store();
    let memory = Memory::new(&mut store, MemoryType::new(1, None, false)).unwrap();
    (store, memory)
}

#[test]
fn vec3_written_reads_back() {
    let (store, memory) = one_page();
    let mut view = memory.view(&store);
    assert_eq!(write_vec3(&mut view, 100, &v(1.0, 2.0, 3.0)), Ok(()));
    assert_eq!(read_vec3(&view, 100), Ok(v(1.0, 2.0, 3.0)));
    let mut raw = [0u8; 12];
    view.read(100, &mut raw).unwrap();
    assert_eq!(raw.to_vec(), v(1.0, 2.0, 3.0).to_bytes());
}

#[test]
fn access_at_the_last_byte_is_bounds_checked() {
    let (store, memory) = one_page();
    let mut view = memory.view(&store);
    assert!(read_vec3(&view, PAGE - 12).is_ok());
    assert_eq!(
        read_vec3(&view, PAGE - 11),
        Err(GuestError::PointerResolution { ptr: PAGE - 11, size: 12 })
    );
    assert!(read_transform(&view, PAGE - 60).is_ok());
    assert_eq!(
        read_transform(&view, PAGE - 59),
        Err(GuestError::PointerResolution { ptr: PAGE - 59, size: 60 })
    );
    let t = transform_identity();
    assert_eq!(
        write_transform(&mut view, u32::MAX, &t),
        Err(GuestError::PointerResolution { ptr: u32::MAX, size: 60 })
    );
}

#[test]
fn identity_call_writes_identity_bytes() {
    let (store, memory) = one_page();
    let mut view = memory.view(&store);
    assert_eq!(call_transform_identity(&mut view, 0), Ok(transform_identity()));
    assert_eq!(call_transform_identity(&mut view, 200), Ok(transform_identity()));
    let mut a = [0u8; 60];
    let mut b = [0u8; 60];
    view.read(0, &mut a).unwrap();
    view.read(200, &mut b).unwrap();
    assert_eq!(a, b);
    assert_eq!(a.to_vec(), transform_identity().to_bytes());
}

#[test]
fn from_pos_then_get_position_through_memory() {
    let (store, memory) = one_page();
    let mut view = memory.view(&store);
    write_vec3(&mut view, 16, &v(1.0, 2.0, 3.0)).unwrap();
    assert_eq!(call_transform_from_pos(&mut view, 64, 16), Ok(transform_from_pos(&v(1.0, 2.0, 3.0))));
    assert_eq!(call_transform_get_position(&mut view, 400, 64), Ok(v(1.0, 2.0, 3.0)));
    assert_eq!(read_vec3(&view, 400), Ok(v(1.0, 2.0, 3.0)));
}

#[test]
fn set_position_updates_the_transform_in_place() {
    let (store, memory) = one_page();
    let mut view = memory.view(&store);
    let mut t = transform_identity();
    t.scale = v(3.0, 3.0, 3.0);
    write_transform(&mut view, 1000, &t).unwrap();
    write_vec3(&mut view, 2000, &v(-4.0, 5.0, 6.5)).unwrap();
    let r = call_transform_set_position(&mut view, 1000, 2000).unwrap();
    assert_eq!(r.offset.c3, v(-4.0, 5.0, 6.5));
    assert_eq!(r.scale, v(3.0, 3.0, 3.0));
    assert_eq!(read_transform(&view, 1000), Ok(r));
}

#[test]
fn unresolved_pointers_fail_and_write_nothing() {
    let (store, memory) = one_page();
    let mut view = memory.view(&store);
    write_vec3(&mut view, 16, &v(1.0, 2.0, 3.0)).unwrap();
    let before = view.copy_to_vec().unwrap();
    assert_eq!(
        call_transform_identity(&mut view, PAGE),
        Err(GuestError::PointerResolution { ptr: PAGE, size: 60 })
    );
    assert_eq!(
        call_transform_from_pos(&mut view, 64, PAGE - 4),
        Err(GuestError::PointerResolution { ptr: PAGE - 4, size: 12 })
    );
    assert_eq!(
        call_transform_from_pos(&mut view, PAGE - 30, 16),
        Err(GuestError::PointerResolution { ptr: PAGE - 30, size: 60 })
    );
    assert_eq!(
        call_transform_get_position(&mut view, 0, u32::MAX - 10),
        Err(GuestError::PointerResolution { ptr: u32::MAX - 10, size: 60 })
    );
    assert_eq!(
        call_transform_get_position(&mut view, PAGE - 1, 0),
        Err(GuestError::PointerResolution { ptr: PAGE - 1, size: 12 })
    );
    assert_eq!(
        call_transform_set_position(&mut view, PAGE - 59, 16),
        Err(GuestError::PointerResolution { ptr: PAGE - 59, size: 60 })
    );
    assert_eq!(
        call_transform_set_position(&mut view, 64, PAGE),
        Err(GuestError::PointerResolution { ptr: PAGE, size: 12 })
    );
    assert_eq!(view.copy_to_vec().unwrap(), before);
}

#[test]
fn print_str_reads_up_to_the_nul() {
    let (store, memory) = one_page();
    let view = memory.view(&store);
    view.write(10, b"hello, guest\0tail").unwrap();
    assert_eq!(print_str(&view, 10), "hello, guest");
    assert_eq!(print_str(&view, 17), "guest");
}

#[test]
fn print_str_placeholder_when_unreadable() {
    let (store, memory) = one_page();
    let view = memory.view(&store);
    view.write(10, &[0x66, 0xff, 0xfe, 0x00]).unwrap();
    assert_eq!(print_str(&view, 10), "invalid ptr");
    assert_eq!(print_str(&view, PAGE + 5), "invalid ptr");
    view.write(PAGE as u64 - 3, b"abc").unwrap();
    assert_eq!(print_str(&view, PAGE - 3), "invalid ptr");
}

#[test]
fn print_transform_reads_one_transform() {
    let (store, memory) = one_page();
    let mut view = memory.view(&store);
    let t = transform_from_pos(&v(0.5, 0.25, 0.125));
    write_transform(&mut view, 300, &t).unwrap();
    assert_eq!(print_transform(&view, 300), Ok(t));
    assert_eq!(
        print_transform(&view, PAGE - 10),
        Err(GuestError::PointerResolution { ptr: PAGE - 10, size: 60 })
    );
}

#[test]
fn registry_lists_every_import_once() {
    let all = host_imports();
    let names: Vec<&str> = all.iter().map(|f| f.name()).collect();
    assert_eq!(
        names,
        vec![
            "print_str",
            "print_transform",
            "transform_identity",
            "transform_from_pos",
            "transform_get_position",
            "transform_set_position",
        ]
    );
    assert_eq!(HostImport::TransformIdentity.arity(), 1);
    assert_eq!(HostImport::TransformFromPos.arity(), 2);
    assert_eq!(HostImport::PrintStr.arity(), 1);
}
