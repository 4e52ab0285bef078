use std::rc::Rc;
use std::sync::Arc;
use volmem::access::{ReadOnly, ReadWrite, WriteOnly};
use volmem::Volmem;

#[derive(Clone, Copy, Debug, PartialEq)]
struct Status {
    ready: bool,
    code: u16,
}

#[test]
fn read_returns_what_the_storage_was_set_up_with() {
    let mut byte: u8 = 0x5A;
    assert_eq!(Volmem::new(&mut byte).read(), 0x5A);

    let word: u32 = 0xDEAD_BEEF;
    assert_eq!(Volmem::new(&word).read(), 0xDEAD_BEEF);

    let wide: i64 = -7;
    assert_eq!(Volmem::new(&wide).read(), -7);

    let status = Status { ready: true, code: 404 };
    assert_eq!(Volmem::new(&status).read(), Status { ready: true, code: 404 });
}

#[test]
fn read_works_through_every_kind_of_handle() {
    let value: u16 = 513;
    let mut other: u16 = 514;
    assert_eq!(Volmem::new(&value).read(), 513);
    assert_eq!(Volmem::new(&mut other).read(), 514);
    assert_eq!(Volmem::new(Box::new(515u16)).read(), 515);
    assert_eq!(Volmem::new(Rc::new(516u16)).read(), 516);
    assert_eq!(Volmem::new(Arc::new(517u16)).read(), 517);
}

#[test]
fn write_then_read_on_a_byte() {
    let mut byte: u8 = 0x00;
    let mut vol = Volmem::new(&mut byte);
    vol.write(0xFF);
    assert_eq!(vol.read(), 0xFF);
}

#[test]
fn last_write_wins() {
    let mut word: u32 = 1;
    let mut vol = Volmem::new(&mut word);
    vol.write(10);
    vol.write(20);
    assert_eq!(vol.read(), 20);
    vol.write(20);
    vol.write(10);
    assert_eq!(vol.read(), 10);
}

#[test]
fn write_reaches_the_storage() {
    let mut word: u32 = 1;
    let mut vol = Volmem::new(&mut word);
    vol.write(0xABCD);
    assert_eq!(word, 0xABCD);
}

#[test]
fn update_stores_what_the_closure_left() {
    let mut word: u32 = 41;
    let mut vol = Volmem::new(&mut word);
    vol.update(|value| *value += 1);
    assert_eq!(vol.read(), 42);
    assert_eq!(word, 42);
}

#[test]
fn update_equals_read_apply_write() {
    let change = |value: &mut u16| *value = value.rotate_left(3) ^ 0x0F0F;

    let mut updated: u16 = 0x1234;
    Volmem::new(&mut updated).update(change);

    let mut stepped: u16 = 0x1234;
    let mut vol = Volmem::new(&mut stepped);
    let mut loaded = vol.read();
    change(&mut loaded);
    vol.write(loaded);

    assert_eq!(updated, stepped);
    assert_eq!(updated, 0x91A0 ^ 0x0F0F);
}

#[test]
fn update_on_a_struct_changes_one_field() {
    let mut status = Status { ready: false, code: 7 };
    let mut vol = Volmem::new(&mut status);
    vol.update(|s| s.ready = true);
    assert_eq!(status, Status { ready: true, code: 7 });
}

#[test]
fn extractinner_gives_the_handle_back() {
    let mut byte: u8 = 3;
    let vol = Volmem::new(&mut byte);
    let inner: &mut u8 = vol.extractinner();
    *inner = 4;
    assert_eq!(byte, 4);

    let boxed = Volmem::new_rdonly(Box::new(9u64)).extractinner();
    assert_eq!(*boxed, 9);
}

#[test]
fn constructors_attach_their_tag() {
    let mut a: u8 = 1;
    let _rw: Volmem<&mut u8, ReadWrite> = Volmem::new(&mut a);
    let mut b: u8 = 2;
    let _ro: Volmem<&mut u8, ReadOnly> = Volmem::new_rdonly(&mut b);
    let mut c: u8 = 3;
    let _wo: Volmem<&mut u8, WriteOnly> = Volmem::new_wronly(&mut c);
}

#[test]
fn read_only_container_reads() {
    let mut byte: u8 = 77;
    let vol = Volmem::new_rdonly(&mut byte);
    assert_eq!(vol.read(), 77);
}

#[test]
fn write_only_container_writes() {
    let mut byte: u8 = 0;
    let mut vol = Volmem::new_wronly(&mut byte);
    vol.write(5);
    assert_eq!(byte, 5);
}

#[test]
fn readonly_keeps_the_target() {
    let mut word: u32 = 0;
    let mut vol = Volmem::new(&mut word);
    vol.write(99);
    let narrowed: Volmem<&mut u32, ReadOnly> = vol.readonly();
    assert_eq!(narrowed.read(), 99);
}

#[test]
fn writeonly_keeps_the_target() {
    let mut word: u32 = 0;
    let vol = Volmem::new(&mut word);
    let mut narrowed: Volmem<&mut u32, WriteOnly> = vol.writeonly();
    narrowed.write(1234);
    assert_eq!(word, 1234);
}

#[test]
fn clone_shares_the_target_of_a_shared_handle() {
    let word: u32 = 8;
    let vol = Volmem::new_rdonly(&word);
    let copy = vol.clone();
    assert_eq!(vol.read(), 8);
    assert_eq!(copy.read(), 8);
}
