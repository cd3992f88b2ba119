use gicv3::Uart;
use gicv3::uart::print_uart;
use gicv3::uart::uart_init;
use gicv3::uart::uart_putc;
use gicv3::uart::uart_puts;

#[test]
fn init_programs_the_control_registers() {
    let mut uart = Uart::power_on();
    uart.init();
    // Enabled with transmit and receive, 8-bit words with FIFOs,
    // receive interrupts unmasked.
    assert_eq!(uart.cr, (1 << 0) | (1 << 8) | (1 << 9));
    assert_eq!(uart.lcrh, (0b11 << 5) | (1 << 4));
    assert_eq!(uart.imsc, (1 << 4) | (1 << 6));
    assert!(uart.output.is_empty());
}

#[test]
fn bytes_are_transmitted_in_order() {
    let mut uart = Uart::power_on();
    uart.init();
    uart.putc(b'A');
    uart.puts("Bc");
    uart.print("!");
    assert_eq!(uart.output, b"ABc!");
}

#[test]
fn free_functions_drive_the_same_peripheral() {
    let mut uart = Uart::power_on();
    uart_init(&mut uart);
    uart_putc(&mut uart, b'>');
    uart_puts(&mut uart, " ok");
    print_uart(&mut uart, "\n");
    assert_eq!(uart.output, b"> ok\n");
}

#[test]
fn empty_string_transmits_nothing() {
    let mut uart = Uart::power_on();
    uart.init();
    uart.puts("");
    assert!(uart.output.is_empty());
}
