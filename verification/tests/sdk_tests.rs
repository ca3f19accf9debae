use botracers::layout::{SLOT1, SLOT2, SLOT3, SLOT4, SLOT5, SLOT6, SLOT_SIZE};
use botracers::sdk::{bump, log, Direction, Log, COMMAND_ADDRESS, HEAP_SIZE};

#[test]
fn log_is_bound_to_the_first_slot() {
    assert_eq!(log().base(), 0x100);
    assert_eq!(log(), Log::bind(SLOT1));
    assert_eq!(Log::bind(0x1234).base(), 0x1234);
}

#[test]
fn slots_are_one_block_apart() {
    assert_eq!(
        [SLOT1, SLOT2, SLOT3, SLOT4, SLOT5, SLOT6],
        [0x100, 0x200, 0x300, 0x400, 0x500, 0x600]
    );
    assert_eq!(SLOT_SIZE, 0x100);
}

#[test]
fn direction_codes() {
    assert_eq!(Direction::NONE.code(), 0);
    assert_eq!(Direction::LEFT.code(), 1);
    assert_eq!(Direction::UP.code(), 2);
    assert_eq!(Direction::RIGHT.code(), 3);
    assert_eq!(Direction::DOWN.code(), 4);
    for code in 0..5u32 {
        assert_eq!(Direction::from_code(code).map(|found| found.code()), Some(code));
    }
    assert_eq!(Direction::from_code(5), None);
    assert_eq!(Direction::from_code(0xffff_ffff), None);
    assert_eq!(COMMAND_ADDRESS, 4);
}

#[test]
fn bump_aligns_and_advances() {
    assert_eq!(bump(0, 1, 10), Some((0, 10)));
    assert_eq!(bump(10, 8, 4), Some((16, 20)));
    assert_eq!(bump(16, 8, 4), Some((16, 20)));
    assert_eq!(bump(17, 16, 0), Some((32, 32)));
    assert_eq!(bump(1, 4096, 0), Some((4096, 4096)));
    assert_eq!(bump(0, 8192, 16), Some((0, 16)));
    assert_eq!(bump(0, 1, HEAP_SIZE), Some((0, 4096)));
}

#[test]
fn bump_refuses_what_does_not_fit() {
    assert_eq!(bump(0, 1, HEAP_SIZE + 1), None);
    assert_eq!(bump(4090, 8, 1), None);
    assert_eq!(bump(4088, 8, 9), None);
    assert_eq!(bump(4088, 8, 8), Some((4088, 4096)));
    assert_eq!(bump(1, 8192, 0), None);
    assert_eq!(bump(u32::MAX, 0x8000_0000, 0), None);
    assert_eq!(bump(u32::MAX, 1, u32::MAX), None);
    assert_eq!(bump(5000, 1, 0), None);
}
