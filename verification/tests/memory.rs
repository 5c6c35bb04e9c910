use fpgrars::error::LoadError;
use fpgrars::layout::{
    CONTROL_SIZE, DATA_SIZE, FRAME_0, FRAME_1, FRAME_SELECT, FRAME_SIZE, HEIGHT, MMIO_SIZE, WIDTH,
};
use fpgrars::memory::Memory;

#[test]
fn layout_is_self_consistent() {
    assert_eq!(WIDTH, 320);
    assert_eq!(HEIGHT, 240);
    assert_eq!(FRAME_SIZE, WIDTH * HEIGHT);
    assert_eq!(DATA_SIZE, 128);
    assert!(FRAME_0 + FRAME_SIZE <= FRAME_1);
    assert!(FRAME_1 + FRAME_SIZE <= FRAME_SELECT);
    assert_eq!(FRAME_SELECT + CONTROL_SIZE, MMIO_SIZE);
    assert!(MMIO_SIZE >= 2 * FRAME_SIZE + CONTROL_SIZE);
}

#[test]
fn fresh_memory_is_zero() {
    let memory = Memory::new();
    for address in 0..DATA_SIZE {
        assert_eq!(memory.read_data(address), 0);
    }
    assert_eq!(memory.front_slot(), 0);
    let frame = memory.read_frame();
    assert_eq!(frame.len(), 320 * 240);
    assert!(frame.iter().all(|&byte| byte == 0));
}

#[test]
fn load_data_refuses_200_bytes_against_128() {
    let mut memory = Memory::new();
    let image = vec![0xabu8; 200];
    assert_eq!(memory.load_data(&image), Err(LoadError::CapacityExceeded));
}

#[test]
fn refused_image_leaves_the_segment_as_it_was() {
    let mut memory = Memory::new();
    let first: Vec<u8> = (1..=10).collect();
    assert_eq!(memory.load_data(&first), Ok(()));
    memory.write_data(100, 77);
    memory.draw(3, 5);
    let too_big = vec![0xffu8; DATA_SIZE + 1];
    assert_eq!(memory.load_data(&too_big), Err(LoadError::CapacityExceeded));
    for address in 0..DATA_SIZE {
        let expected: u8 = if address < 10 {
            (address + 1) as u8
        } else if address == 100 {
            77
        } else {
            0
        };
        assert_eq!(memory.read_data(address), expected);
    }
    assert_eq!(memory.front_slot(), 0);
    memory.swap_frame();
    assert_eq!(memory.read_frame()[3], 5);
}

#[test]
fn smaller_image_is_zero_padded() {
    let mut memory = Memory::new();
    memory.write_data(50, 9);
    memory.write_data(127, 9);
    let image = vec![1u8, 2, 3];
    assert_eq!(memory.load_data(&image), Ok(()));
    assert_eq!(memory.read_data(0), 1);
    assert_eq!(memory.read_data(1), 2);
    assert_eq!(memory.read_data(2), 3);
    for address in 3..DATA_SIZE {
        assert_eq!(memory.read_data(address), 0);
    }
}

#[test]
fn image_of_exactly_the_capacity_fits() {
    let mut memory = Memory::new();
    let image: Vec<u8> = (0..DATA_SIZE).map(|i| (i as u8) ^ 0x5a).collect();
    assert_eq!(memory.load_data(&image), Ok(()));
    for address in 0..DATA_SIZE {
        assert_eq!(memory.read_data(address), (address as u8) ^ 0x5a);
    }
}

#[test]
fn empty_image_clears_the_segment() {
    let mut memory = Memory::new();
    memory.write_data(0, 1);
    assert_eq!(memory.load_data(&[]), Ok(()));
    assert_eq!(memory.read_data(0), 0);
}

#[test]
fn drawing_goes_to_the_back_slot() {
    let mut memory = Memory::new();
    memory.draw(0, 10);
    memory.draw(FRAME_SIZE - 1, 20);
    let front = memory.read_frame();
    assert!(front.iter().all(|&byte| byte == 0));
    memory.swap_frame();
    let shown = memory.read_frame();
    assert_eq!(shown.len(), FRAME_SIZE);
    assert_eq!(shown[0], 10);
    assert_eq!(shown[FRAME_SIZE - 1], 20);
    assert_eq!(shown[1], 0);
}

#[test]
fn swap_shows_the_other_slot() {
    let mut memory = Memory::new();
    assert_eq!(memory.front_slot(), 0);
    memory.draw(7, 1);
    memory.swap_frame();
    assert_eq!(memory.front_slot(), 1);
    memory.draw(7, 2);
    assert_eq!(memory.read_frame()[7], 1);
    memory.swap_frame();
    assert_eq!(memory.front_slot(), 0);
    assert_eq!(memory.read_frame()[7], 2);
    memory.swap_frame();
    assert_eq!(memory.front_slot(), 1);
    assert_eq!(memory.read_frame()[7], 1);
}

#[test]
fn data_writes_do_not_reach_the_display() {
    let mut memory = Memory::new();
    memory.write_data(0, 200);
    memory.write_data(127, 201);
    assert_eq!(memory.read_data(0), 200);
    assert_eq!(memory.read_data(127), 201);
    assert!(memory.read_frame().iter().all(|&byte| byte == 0));
    memory.swap_frame();
    assert!(memory.read_frame().iter().all(|&byte| byte == 0));
    assert_eq!(memory.read_data(0), 200);
}
