use wokwi_chip::abi::{
    BOTH, FALLING, HIGH, INPUT, INPUT_PULLUP, LOW, NO_PIN, OUTPUT, OUTPUT_HIGH, OUTPUT_LOW,
    RISING,
};
use wokwi_chip::host::MockHost;
use wokwi_chip::records::WatchConfig;

#[test]
fn issued_handles_are_sequential_and_never_no_pin() {
    let mut host = MockHost::new(1, 1);
    let first = host.pin_init(INPUT);
    let second = host.pin_init(OUTPUT);
    let third = host.pin_init(INPUT_PULLUP);
    assert_eq!(first, 0);
    assert_eq!(second, 1);
    assert_eq!(third, 2);
    assert_ne!(first, NO_PIN);
    assert_ne!(second, NO_PIN);
    assert_ne!(third, NO_PIN);
}

#[test]
fn initial_levels_follow_the_mode() {
    let mut host = MockHost::new(1, 1);
    let input = host.pin_init(INPUT);
    let high = host.pin_init(OUTPUT_HIGH);
    let low = host.pin_init(OUTPUT_LOW);
    assert_eq!(host.pin_read(input), LOW);
    assert_eq!(host.pin_read(high), HIGH);
    assert_eq!(host.pin_read(low), LOW);
}

#[test]
fn writes_change_the_level_and_mode_changes_keep_it() {
    let mut host = MockHost::new(1, 1);
    let pin = host.pin_init(OUTPUT);
    host.pin_write(pin, HIGH);
    assert_eq!(host.pin_read(pin), HIGH);
    host.pin_mode(pin, INPUT);
    assert_eq!(host.pin_read(pin), HIGH);
    host.pin_mode(pin, OUTPUT_LOW);
    assert_eq!(host.pin_read(pin), LOW);
    host.pin_mode(pin, OUTPUT_HIGH);
    assert_eq!(host.pin_read(pin), HIGH);
}

#[test]
fn second_watch_on_a_pin_is_rejected_without_a_state_change() {
    let mut host = MockHost::new(1, 1);
    let pin = host.pin_init(INPUT);
    let first = WatchConfig { user_data: 1, edge: RISING, pin_change: 10 };
    let second = WatchConfig { user_data: 2, edge: FALLING, pin_change: 20 };
    assert!(host.pin_watch(pin, &first));
    assert!(!host.pin_watch(pin, &second));
    assert_eq!(host.watch_edge(pin), Some(RISING));
    assert_eq!(host.pin_read(pin), LOW);
}

#[test]
fn watches_are_per_pin() {
    let mut host = MockHost::new(1, 1);
    let one = host.pin_init(INPUT);
    let other = host.pin_init(INPUT);
    let config = WatchConfig { user_data: 0, edge: BOTH, pin_change: 0 };
    assert!(host.pin_watch(one, &config));
    assert!(host.pin_watch(other, &config));
    assert!(!host.pin_watch(one, &config));
}

#[test]
fn stopping_a_watch_frees_the_pin() {
    let mut host = MockHost::new(1, 1);
    let pin = host.pin_init(INPUT);
    let first = WatchConfig { user_data: 1, edge: RISING, pin_change: 10 };
    let second = WatchConfig { user_data: 2, edge: FALLING, pin_change: 20 };
    assert!(host.pin_watch(pin, &first));
    host.pin_watch_stop(pin);
    assert_eq!(host.watch_edge(pin), None);
    assert!(host.pin_watch(pin, &second));
    assert_eq!(host.watch_edge(pin), Some(FALLING));
}

#[test]
fn framebuffer_reports_its_handle_and_dimensions() {
    let host = MockHost::new(4, 2);
    let (buffer, width, height) = host.framebuffer_init();
    assert_eq!(buffer, 0);
    assert_eq!(width, 4);
    assert_eq!(height, 2);
}

#[test]
fn buffer_write_reports_a_short_count_at_the_end() {
    let mut host = MockHost::new(4, 2);
    let (buffer, _, _) = host.framebuffer_init();
    let data: Vec<u8> = vec![9, 8, 7, 6, 5];
    let written = host.buffer_write(buffer, 6, &data, 5);
    assert_eq!(written, 2);
    let mut back: Vec<u8> = vec![0; 8];
    let read = host.buffer_read(buffer, 0, &mut back, 8);
    assert_eq!(read, 8);
    assert_eq!(back, vec![0, 0, 0, 0, 0, 0, 9, 8]);
}

#[test]
fn buffer_read_reports_a_short_count_at_the_end() {
    let mut host = MockHost::new(4, 2);
    let (buffer, _, _) = host.framebuffer_init();
    let data: Vec<u8> = vec![1, 2, 3, 4, 5, 6, 7, 8];
    assert_eq!(host.buffer_write(buffer, 0, &data, 8), 8);
    let mut back: Vec<u8> = vec![0xff; 8];
    let read = host.buffer_read(buffer, 5, &mut back, 8);
    assert_eq!(read, 3);
    assert_eq!(back, vec![6, 7, 8, 0xff, 0xff, 0xff, 0xff, 0xff]);
}

#[test]
fn transfers_past_the_end_move_nothing() {
    let mut host = MockHost::new(2, 2);
    let mut back: Vec<u8> = vec![0xff; 4];
    assert_eq!(host.buffer_read(0, 4, &mut back, 4), 0);
    assert_eq!(back, vec![0xff; 4]);
    let data: Vec<u8> = vec![1, 2, 3, 4];
    assert_eq!(host.buffer_write(0, 100, &data, 4), 0);
}

#[test]
fn unknown_buffer_handles_move_nothing() {
    let mut host = MockHost::new(2, 2);
    let data: Vec<u8> = vec![1, 2, 3, 4];
    assert_eq!(host.buffer_write(7, 0, &data, 4), 0);
    let mut back: Vec<u8> = vec![0; 4];
    assert_eq!(host.buffer_read(7, 0, &mut back, 4), 0);
    assert_eq!(host.buffer_read(0, 0, &mut back, 4), 4);
    assert_eq!(back, vec![0, 0, 0, 0]);
}
