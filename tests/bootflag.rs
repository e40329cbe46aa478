use interboard::bootloader::{BootAction, BootloaderFlag, MAGIC_TOKEN, WAIT_CYCLES};

#[test]
fn double_reset_enters_bootloader() {
    let mut flag = BootloaderFlag::power_on();
    assert!(!flag.is_armed());
    assert_eq!(flag.on_reset(), BootAction::WaitThenDisarm);
    assert!(flag.is_armed());
    assert_eq!(flag.word, MAGIC_TOKEN);
    // second reset inside the window
    assert_eq!(flag.on_reset(), BootAction::EnterBootloader);
    assert_eq!(flag.word, 0);
}

#[test]
fn late_second_reset_boots_normally() {
    let mut flag = BootloaderFlag::power_on();
    assert_eq!(flag.on_reset(), BootAction::WaitThenDisarm);
    flag.window_elapsed();
    assert!(!flag.is_armed());
    assert_eq!(flag.on_reset(), BootAction::WaitThenDisarm);
    assert!(flag.is_armed());
}

#[test]
fn stray_word_arms_the_flag() {
    let mut flag = BootloaderFlag::from_word(0x1234_5678);
    assert_eq!(flag.on_reset(), BootAction::WaitThenDisarm);
    assert_eq!(flag.word, MAGIC_TOKEN);
}

#[test]
fn wait_window_is_half_a_second() {
    assert_eq!(WAIT_CYCLES, 62_500_000);
}
