use wokwi_chip::abi::{BOTH, FALLING, NO_PIN, RISING};
use wokwi_chip::layout::{
    decode_i2c_config, decode_spi_config, decode_timer_config, decode_uart_config,
    decode_watch_config, encode_i2c_config, encode_spi_config, encode_timer_config,
    encode_uart_config, encode_watch_config, I2C_CONFIG_SIZE, SPI_CONFIG_SIZE, TIMER_CONFIG_SIZE,
    UART_CONFIG_SIZE, WATCH_CONFIG_SIZE,
};
use wokwi_chip::records::{I2CConfig, SPIConfig, TimerConfig, UARTConfig, WatchConfig};

fn u64_at(bytes: &[u8], start: usize) -> u64 {
    let mut field: [u8; 8] = [0; 8];
    field.copy_from_slice(&bytes[start..start + 8]);
    u64::from_le_bytes(field)
}

fn u32_at(bytes: &[u8], start: usize) -> u32 {
    let mut field: [u8; 4] = [0; 4];
    field.copy_from_slice(&bytes[start..start + 4]);
    u32::from_le_bytes(field)
}

fn i32_at(bytes: &[u8], start: usize) -> i32 {
    let mut field: [u8; 4] = [0; 4];
    field.copy_from_slice(&bytes[start..start + 4]);
    i32::from_le_bytes(field)
}

#[test]
fn watch_config_layout_and_round_trip() {
    let config = WatchConfig { user_data: 0x1122_3344_5566_7788, edge: BOTH, pin_change: 0xdead_beef_0102_0304 };
    let bytes = encode_watch_config(&config);
    assert_eq!(bytes.len(), WATCH_CONFIG_SIZE);
    assert_eq!(u64_at(&bytes, 0), config.user_data);
    assert_eq!(u32_at(&bytes, 8), config.edge);
    assert_eq!(u32_at(&bytes, 12), 0);
    assert_eq!(u64_at(&bytes, 16), config.pin_change);
    assert_eq!(decode_watch_config(&bytes), Some(config));
}

#[test]
fn timer_config_layout_and_round_trip() {
    let config = TimerConfig { user_data: 0x0102_0304_0506_0708, callback: 0x1111_2222_3333_4444 };
    let bytes = encode_timer_config(&config);
    assert_eq!(bytes.len(), TIMER_CONFIG_SIZE);
    assert_eq!(u64_at(&bytes, 0), config.user_data);
    assert_eq!(u64_at(&bytes, 8), config.callback);
    assert_eq!(decode_timer_config(&bytes), Some(config));
}

#[test]
fn uart_config_layout_and_round_trip() {
    let config = UARTConfig {
        user_data: 0xaaaa_bbbb_cccc_dddd,
        rx: 3,
        tx: NO_PIN,
        baud_rate: 115_200,
        rx_data: 0x0123_4567_89ab_cdef,
        write_done: 0xfedc_ba98_7654_3210,
    };
    let bytes = encode_uart_config(&config);
    assert_eq!(bytes.len(), UART_CONFIG_SIZE);
    assert_eq!(u64_at(&bytes, 0), config.user_data);
    assert_eq!(i32_at(&bytes, 8), config.rx);
    assert_eq!(i32_at(&bytes, 12), config.tx);
    assert_eq!(u32_at(&bytes, 16), config.baud_rate);
    assert_eq!(u32_at(&bytes, 20), 0);
    assert_eq!(u64_at(&bytes, 24), config.rx_data);
    assert_eq!(u64_at(&bytes, 32), config.write_done);
    assert_eq!(decode_uart_config(&bytes), Some(config));
}

#[test]
fn i2c_config_layout_and_round_trip() {
    let config = I2CConfig {
        user_data: 0x1357_9bdf_0246_8ace,
        address: 0x42,
        scl: 0,
        sda: 1,
        connect: 0x0101_0101_0101_0101,
        read: 0x0202_0202_0202_0202,
        write: 0x0303_0303_0303_0303,
        disconnect: 0x0404_0404_0404_0404,
    };
    let bytes = encode_i2c_config(&config);
    assert_eq!(bytes.len(), I2C_CONFIG_SIZE);
    assert_eq!(u64_at(&bytes, 0), config.user_data);
    assert_eq!(u32_at(&bytes, 8), config.address);
    assert_eq!(i32_at(&bytes, 12), config.scl);
    assert_eq!(i32_at(&bytes, 16), config.sda);
    assert_eq!(u32_at(&bytes, 20), 0);
    assert_eq!(u64_at(&bytes, 24), config.connect);
    assert_eq!(u64_at(&bytes, 32), config.read);
    assert_eq!(u64_at(&bytes, 40), config.write);
    assert_eq!(u64_at(&bytes, 48), config.disconnect);
    assert_eq!(decode_i2c_config(&bytes), Some(config));
}

#[test]
fn spi_config_layout_and_round_trip() {
    let config = SPIConfig {
        user_data: 0x8899_aabb_ccdd_eeff,
        sck: 5,
        mosi: 6,
        miso: NO_PIN,
        mode: 2,
        done: 0x5555_6666_7777_8888,
    };
    let bytes = encode_spi_config(&config);
    assert_eq!(bytes.len(), SPI_CONFIG_SIZE);
    assert_eq!(u64_at(&bytes, 0), config.user_data);
    assert_eq!(i32_at(&bytes, 8), config.sck);
    assert_eq!(i32_at(&bytes, 12), config.mosi);
    assert_eq!(i32_at(&bytes, 16), config.miso);
    assert_eq!(u32_at(&bytes, 20), config.mode);
    assert_eq!(u64_at(&bytes, 24), config.done);
    assert_eq!(decode_spi_config(&bytes), Some(config));
}

#[test]
fn watch_config_round_trips_edge_variants() {
    for edge in [RISING, FALLING, BOTH] {
        let config = WatchConfig { user_data: 7, edge, pin_change: 9 };
        let bytes = encode_watch_config(&config);
        assert_eq!(decode_watch_config(&bytes), Some(config));
    }
}

#[test]
fn decoding_a_wrong_size_fails() {
    let short: Vec<u8> = vec![0; WATCH_CONFIG_SIZE - 1];
    assert_eq!(decode_watch_config(&short), None);
    let long: Vec<u8> = vec![0; TIMER_CONFIG_SIZE + 1];
    assert_eq!(decode_timer_config(&long), None);
    let empty: Vec<u8> = Vec::new();
    assert_eq!(decode_uart_config(&empty), None);
    assert_eq!(decode_i2c_config(&empty), None);
    assert_eq!(decode_spi_config(&empty), None);
}
