use std::cell::Cell;
use volmem::handle::Handle;
use volmem::text::wrap_field;
use volmem::Volmem;

struct Counted<'a> {
    value: u8,
    loads: &'a Cell<u32>,
}

impl<'a> Handle for Counted<'a> {
    type Target = u8;

    fn pointee(&self) -> &u8 {
        &self.value
    }

    fn lend(&self) -> &u8 {
        self.loads.set(self.loads.get() + 1);
        &self.value
    }
}

#[test]
fn debug_text_of_a_readable_container_shows_the_value() {
    let word: u32 = 42;
    assert_eq!(Volmem::new(&word).debug_text(), "Volmem(42)");
    assert_eq!(Volmem::new_rdonly(&word).debug_text(), "Volmem(42)");
    let pair: (u8, bool) = (1, true);
    assert_eq!(Volmem::new(&pair).debug_text(), "Volmem((1, true))");
}

#[test]
fn debug_text_of_a_write_only_container_is_fixed() {
    let mut word: u32 = 42;
    assert_eq!(Volmem::new_wronly(&mut word).debug_text(), "Volmem(\"[writeonly]\")");
    assert_eq!(Volmem::new_wronly(()).debug_text(), "Volmem(\"[writeonly]\")");
}

#[test]
fn debug_text_of_a_write_only_container_loads_nothing() {
    let loads = Cell::new(0);
    let vol = Volmem::new_wronly(Counted { value: 3, loads: &loads });
    assert_eq!(vol.debug_text(), "Volmem(\"[writeonly]\")");
    assert_eq!(loads.get(), 0);
}

#[test]
fn debug_text_of_a_readable_container_loads_once() {
    let loads = Cell::new(0);
    let vol = Volmem::new(Counted { value: 3, loads: &loads });
    assert_eq!(vol.debug_text(), "Volmem(3)");
    assert_eq!(loads.get(), 1);
}

#[test]
fn read_loads_once() {
    let loads = Cell::new(0);
    let vol = Volmem::new(Counted { value: 3, loads: &loads });
    assert_eq!(vol.read(), 3);
    assert_eq!(loads.get(), 1);
}

#[test]
fn wrap_field_puts_the_field_in_brackets() {
    assert_eq!(wrap_field("7"), "Volmem(7)");
    assert_eq!(wrap_field(""), "Volmem()");
}

#[test]
fn debug_text_shows_the_value_last_written() {
    let mut word: u32 = 1;
    let mut vol = Volmem::new(&mut word);
    assert_eq!(vol.debug_text(), "Volmem(1)");
    vol.write(77);
    assert_eq!(vol.debug_text(), "Volmem(77)");
}
