use volmem::access::ReadOnly;
use volmem::Volmem;

#[derive(Clone, Copy, Debug, PartialEq)]
struct Registers {
    control: u8,
    data: u32,
}

#[test]
fn map_reads_the_field_of_what_read_returns() {
    let regs = Registers { control: 0x80, data: 0x0102_0304 };
    let vol = Volmem::new(&regs);
    assert_eq!(vol.map(|r| &r.data).read(), vol.read().data);
    assert_eq!(vol.map(|r| &r.control).read(), 0x80);
}

#[test]
fn map_keeps_the_tag() {
    let regs = Registers { control: 1, data: 2 };
    let vol = Volmem::new_rdonly(&regs);
    let part: Volmem<&u32, ReadOnly> = vol.map(|r| &r.data);
    assert_eq!(part.read(), 2);
}

#[test]
fn map_mut_writes_one_field_and_leaves_the_other() {
    let mut regs = Registers { control: 1, data: 2 };
    let mut vol = Volmem::new(&mut regs);
    vol.map_mut(|r| &mut r.data).write(0xFFFF_0000);
    assert_eq!(vol.read(), Registers { control: 1, data: 0xFFFF_0000 });
    assert_eq!(regs, Registers { control: 1, data: 0xFFFF_0000 });
}

#[test]
fn map_to_a_sub_slice() {
    let buf: [u16; 5] = [10, 20, 30, 40, 50];
    let vol = Volmem::new(&buf[..]);
    let part = vol.map(|s| &s[3..]);
    let mut out = [0u16; 2];
    part.copy_into_slice(&mut out);
    assert_eq!(out, [40, 50]);
}

#[test]
fn array_as_slice_then_index_a_range() {
    let mut array: [u8; 4] = [0; 4];
    let mut vol = Volmem::new(&mut array);
    let mut slice = vol.as_mut_slice();
    slice.copy_from_slice(&[1, 2, 3, 4]);
    let mut out = [0u8; 2];
    slice.idx(1..3).copy_into_slice(&mut out);
    assert_eq!(out, [2, 3]);
}

#[test]
fn idx_range_equals_the_range_of_the_whole() {
    let buf: [u32; 6] = [5, 4, 3, 2, 1, 0];
    let vol = Volmem::new(&buf[..]);
    let mut whole = [0u32; 6];
    vol.copy_into_slice(&mut whole);
    for i in 0..=buf.len() {
        for j in i..=buf.len() {
            let mut part = vec![0u32; j - i];
            vol.idx(i..j).copy_into_slice(&mut part);
            assert_eq!(part[..], whole[i..j]);
        }
    }
}

#[test]
fn idx_empty_range_at_the_end() {
    let buf: [u8; 3] = [1, 2, 3];
    let vol = Volmem::new(&buf[..]);
    let mut none: [u8; 0] = [];
    vol.idx(3..3).copy_into_slice(&mut none);
    assert_eq!(none, []);
}

#[test]
fn idx_position_gives_the_element() {
    let buf: [u16; 3] = [7, 8, 9];
    let vol = Volmem::new(&buf[..]);
    assert_eq!(vol.idx(0).read(), 7);
    assert_eq!(vol.idx(2).read(), 9);
}

#[test]
fn idxmut_stores_inside_the_range_only() {
    let mut buf: [u8; 5] = [1, 2, 3, 4, 5];
    let mut vol = Volmem::new(&mut buf[..]);
    vol.idxmut(1..4).copy_from_slice(&[20, 30, 40]);
    assert_eq!(buf, [1, 20, 30, 40, 5]);
}

#[test]
fn idxmut_whole_and_empty_ranges() {
    let mut buf: [u8; 3] = [1, 2, 3];
    let mut vol = Volmem::new(&mut buf[..]);
    vol.idxmut(0..3).fill(9);
    vol.idxmut(2..2).fill(1);
    vol.idxmut(0..0).fill(1);
    assert_eq!(buf, [9, 9, 9]);
}

#[test]
fn as_slice_shows_the_array() {
    let array: [i32; 3] = [-1, 0, 1];
    let vol = Volmem::new(&array);
    let mut out = [0i32; 3];
    vol.as_slice().copy_into_slice(&mut out);
    assert_eq!(out, [-1, 0, 1]);
}

#[test]
fn as_mut_slice_stores_to_the_array() {
    let mut array: [u8; 3] = [0; 3];
    let mut vol = Volmem::new(&mut array);
    vol.as_mut_slice().fill(0xEE);
    assert_eq!(array, [0xEE; 3]);
}

#[test]
fn idxmut_at_stores_to_one_element_only() {
    let mut a: [u8; 4] = [1, 2, 3, 4];
    let mut vol = Volmem::new(&mut a[..]);
    vol.idxmut_at(2).write(9);
    assert_eq!(a, [1, 2, 9, 4]);
}

#[test]
fn idxmut_at_first_and_last() {
    let mut a: [u32; 3] = [1, 2, 3];
    let mut vol = Volmem::new(&mut a[..]);
    vol.idxmut_at(0).write(10);
    vol.idxmut_at(2).update(|x| *x += 30);
    assert_eq!(vol.idxmut_at(2).read(), 33);
    assert_eq!(a, [10, 2, 33]);
}
