use rpi_hal::mini_uart::{
    uart_read_byte_ready, uart_read_char, uart_write_byte_ready, uart_write_char,
    uart_write_text,
};

#[test]
fn ready_bits() {
    assert!(uart_write_byte_ready(0x20));
    assert!(uart_write_byte_ready(0x61));
    assert!(!uart_write_byte_ready(0x1F));
    assert!(uart_read_byte_ready(0x1));
    assert!(uart_read_byte_ready(0x21));
    assert!(!uart_read_byte_ready(0x20));
}

#[test]
fn line_feed_gets_carriage_return() {
    assert_eq!(uart_write_char('a'), vec![97]);
    assert_eq!(uart_write_char('\n'), vec![13, 10]);
    assert_eq!(uart_write_char('\r'), vec![13]);
}

#[test]
fn text_words_in_order() {
    assert_eq!(uart_write_text("hi\n"), vec![104, 105, 13, 10]);
    assert_eq!(uart_write_text(""), Vec::<u32>::new());
    assert_eq!(uart_write_text("\n\n"), vec![13, 10, 13, 10]);
}

#[test]
fn read_char_checks_scalar() {
    assert_eq!(uart_read_char(65), Some('A'));
    assert_eq!(uart_read_char(0xE9), Some('é'));
    assert_eq!(uart_read_char(0xD800), None);
    assert_eq!(uart_read_char(0x11_0000), None);
}
