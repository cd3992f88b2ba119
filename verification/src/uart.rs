//! The UART transmit peripheral.
//!
//! A simple synchronous register block with no protocol state: a line
//! control register, a control register gating the transmitter, an
//! interrupt mask, and a data register.  Bytes written to the data
//! register leave the system; the model records them in order as the
//! peripheral's transmitted output.

use vstd::prelude::*;
use vstd::string::StringSliceAdditionalSpecFns;

verus! {

/// Control register: UART enable.
pub const UART_CR_UARTEN: u32 = 1 << 0;

/// Control register: transmit enable.
pub const UART_CR_TXE: u32 = 1 << 8;

/// Control register: receive enable.
pub const UART_CR_RXE: u32 = 1 << 9;

/// Line control register: 8-bit word length.
pub const UART_LCRH_WLEN_8: u32 = 0b11 << 5;

/// Line control register: FIFO enable.
pub const UART_LCRH_FEN: u32 = 1 << 4;

/// Interrupt mask register: receive interrupt.
pub const UART_IMSC_RXIM: u32 = 1 << 4;

/// Interrupt mask register: receive-timeout interrupt.
pub const UART_IMSC_RTIM: u32 = 1 << 6;

/// The UART register block, with the bytes it has transmitted.
pub struct Uart {
    /// UART_CR: control register.
    pub cr: u32,
    /// UART_LCRH: line control register.
    pub lcrh: u32,
    /// UART_IMSC: interrupt mask register.
    pub imsc: u32,
    /// Every byte written to the data register, oldest first.
    pub output: Vec<u8>,
}

impl Uart {
    /// The reset state: disabled, nothing transmitted.
    pub fn power_on() -> (uart: Uart)
        ensures
            uart.cr == 0,
            uart.lcrh == 0,
            uart.imsc == 0,
            uart.output@ == Seq::<u8>::empty(),
    {
        Uart { cr: 0, lcrh: 0, imsc: 0, output: Vec::new() }
    }

    /// Initialize the peripheral: disable it, clear stale interrupts,
    /// select 8-bit words with FIFOs, enable the UART with transmit and
    /// receive, and unmask the receive interrupts.
    pub fn init(&mut self)
        ensures
            final(self).cr == (UART_CR_UARTEN | UART_CR_TXE | UART_CR_RXE),
            final(self).lcrh == (UART_LCRH_WLEN_8 | UART_LCRH_FEN),
            final(self).imsc == (UART_IMSC_RXIM | UART_IMSC_RTIM),
            final(self).output == old(self).output,
    {
        self.cr = 0;
        self.lcrh = UART_LCRH_WLEN_8 | UART_LCRH_FEN;
        self.cr = UART_CR_UARTEN | UART_CR_TXE | UART_CR_RXE;
        self.imsc = UART_IMSC_RXIM | UART_IMSC_RTIM;
    }

    /// Transmit one byte: on hardware this spins until the transmit
    /// FIFO has room, then writes the data register.
    pub fn putc(&mut self, c: u8)
        ensures
            final(self).output@ == old(self).output@.push(c),
            final(self).cr == old(self).cr,
            final(self).lcrh == old(self).lcrh,
            final(self).imsc == old(self).imsc,
    {
        self.output.push(c);
    }

    /// Transmit every byte of a string, in order.
    pub fn puts(&mut self, s: &str)
        ensures
            final(self).output@ == old(self).output@ + s.spec_bytes(),
            final(self).cr == old(self).cr,
            final(self).lcrh == old(self).lcrh,
            final(self).imsc == old(self).imsc,
    {
        let bytes = s.as_bytes();
        let mut i: usize = 0;
        while i < bytes.len()
            invariant
                i <= bytes.len(),
                bytes@ == s.spec_bytes(),
                self.output@ == old(self).output@ + s.spec_bytes().take(i as int),
                self.cr == old(self).cr,
                self.lcrh == old(self).lcrh,
                self.imsc == old(self).imsc,
            decreases bytes.len() - i,
        {
            self.putc(bytes[i]);
            i = i + 1;
        }
        proof {
            assert(s.spec_bytes().take(bytes@.len() as int) =~= s.spec_bytes());
        }
    }

    /// Transmit a string (alias for `puts`).
    pub fn print(&mut self, s: &str)
        ensures
            final(self).output@ == old(self).output@ + s.spec_bytes(),
            final(self).cr == old(self).cr,
            final(self).lcrh == old(self).lcrh,
            final(self).imsc == old(self).imsc,
    {
        self.puts(s);
    }
}

/// Initialize a UART.
pub fn uart_init(uart: &mut Uart)
    ensures
        final(uart).cr == (UART_CR_UARTEN | UART_CR_TXE | UART_CR_RXE),
        final(uart).lcrh == (UART_LCRH_WLEN_8 | UART_LCRH_FEN),
        final(uart).imsc == (UART_IMSC_RXIM | UART_IMSC_RTIM),
        final(uart).output == old(uart).output,
{
    uart.init();
}

/// Transmit one byte.
pub fn uart_putc(uart: &mut Uart, c: u8)
    ensures
        final(uart).output@ == old(uart).output@.push(c),
{
    uart.putc(c);
}

/// Transmit a string.
pub fn uart_puts(uart: &mut Uart, s: &str)
    ensures
        final(uart).output@ == old(uart).output@ + s.spec_bytes(),
{
    uart.puts(s);
}

/// Transmit a string.
pub fn print_uart(uart: &mut Uart, s: &str)
    ensures
        final(uart).output@ == old(uart).output@ + s.spec_bytes(),
{
    uart.print(s);
}

} // verus!
