use rp2040_fred::pins::{gpio, reg};
use rp2040_fred::protocol::FredReply;
use rp2040_fred::transport::{
    compose_bus_word, fifo_flag, FifoSpin, ReadCycle, Rp2040FredTransport, SpinStep,
    FIFO_SPIN_LIMIT, READ_SM, READ_TIMEOUT_BYTE, SNIFFER_SM, WRITE_SM,
};

#[test]
fn register_addresses() {
    assert_eq!(reg::FC80, 0x80);
    assert_eq!(reg::FCF0, 0xF0);
    assert_eq!(reg::FCF1, 0xF1);
    assert_eq!((gpio::D0, gpio::D7, gpio::A0, gpio::A7), (0, 7, 8, 15));
    assert_eq!((gpio::RNW, gpio::MHZ1E, gpio::FRED_N), (16, 17, 20));
    assert_eq!((gpio::DATA_DIR, gpio::DATA_OE_N), (27, 28));
    assert_eq!((WRITE_SM, READ_SM, SNIFFER_SM), (0, 1, 2));
}

#[test]
fn bus_word_has_data_low_and_address_high() {
    assert_eq!(compose_bus_word(0x80, 0x0C), 0x800C);
    assert_eq!(compose_bus_word(0xF0, 0x00), 0xF000);
    assert_eq!(compose_bus_word(0xF1, 0x00), 0xF100);
    assert_eq!(compose_bus_word(0x00, 0x00), 0x0000);
    assert_eq!(compose_bus_word(0xFF, 0xFF), 0xFFFF);
    assert_eq!(compose_bus_word(0x12, 0x34), 0x1234);
    assert_eq!(Rp2040FredTransport::write_word(0x03), 0x8003);
    assert_eq!(Rp2040FredTransport::status_read_word(), 0xF000);
    assert_eq!(Rp2040FredTransport::response_read_word(), 0xF100);
}

#[test]
fn fifo_flag_reads_the_bit_of_the_state_machine() {
    assert!(fifo_flag(0b0001, 0));
    assert!(!fifo_flag(0b0001, 1));
    assert!(fifo_flag(0b0010, 1));
    assert!(fifo_flag(0b0100, 2));
    assert!(!fifo_flag(0b1011, 2));
    assert!(fifo_flag(0b1000, 3));
    assert!(fifo_flag(0x80, 7));
    assert!(!fifo_flag(0x00, 0));
    assert!(fifo_flag(0xFF, 5));
}

#[test]
fn spin_is_ready_at_once_when_the_fifo_is_free() {
    let mut spin = FifoSpin::new(1);
    assert_eq!(spin.observe(0b0000), SpinStep::Ready);
    // The flags of other state machines do not matter.
    let mut spin = FifoSpin::new(1);
    assert_eq!(spin.observe(0b1101), SpinStep::Ready);
}

#[test]
fn spin_gives_up_at_the_limit() {
    assert_eq!(FIFO_SPIN_LIMIT, 100_000);
    let mut spin = FifoSpin::new(0);
    for look in 1..FIFO_SPIN_LIMIT {
        assert_eq!(spin.observe(0b0001), SpinStep::Again, "look {}", look);
    }
    assert_eq!(spin.observe(0b0001), SpinStep::TimedOut);
}

#[test]
fn spin_can_become_ready_after_waiting() {
    let mut spin = FifoSpin::new(2);
    for _ in 0..99_999 {
        assert_eq!(spin.observe(0b0100), SpinStep::Again);
    }
    assert_eq!(spin.observe(0b0011), SpinStep::Ready);
}

#[test]
fn new_transport_has_seen_nothing() {
    let t = Rp2040FredTransport::new();
    assert_eq!(t.last_write_word(), 0);
    assert_eq!(t.last_read_word(), 0);
    assert_eq!(t.tx_timeout_count(), 0);
    assert_eq!(t.rx_timeout_count(), 0);
}

#[test]
fn set_up_is_due_once() {
    let mut t = Rp2040FredTransport::new();
    assert!(t.init());
    assert!(!t.init());
    assert!(!t.init());
}

#[test]
fn write_books_the_word_and_counts_a_failed_push() {
    let mut t = Rp2040FredTransport::new();
    t.write_fc80(0x0D, true);
    assert_eq!(t.last_write_word(), 0x800D);
    assert_eq!(t.tx_timeout_count(), 0);
    t.write_fc80(0x0C, false);
    assert_eq!(t.last_write_word(), 0x800C);
    assert_eq!(t.tx_timeout_count(), 1);
    assert_eq!(t.rx_timeout_count(), 0);
    assert_eq!(t.last_read_word(), 0);
}

#[test]
fn read_returns_the_low_byte_of_the_data() {
    let mut t = Rp2040FredTransport::new();
    assert_eq!(t.read_fcf0(ReadCycle::Data(0x0000_0042)), 0x42);
    assert_eq!(t.last_read_word(), 0xF000);
    assert_eq!(t.read_fcf1(ReadCycle::Data(0xABCD_EF12)), 0x12);
    assert_eq!(t.last_read_word(), 0xF100);
    assert_eq!(t.read_fcf1(ReadCycle::Data(0xFFFF_FF00)), 0x00);
    assert_eq!(t.tx_timeout_count(), 0);
    assert_eq!(t.rx_timeout_count(), 0);
}

#[test]
fn timeouts_read_as_the_sentinel_and_are_counted() {
    assert_eq!(READ_TIMEOUT_BYTE, 0xFF);
    let mut t = Rp2040FredTransport::new();
    assert_eq!(t.read_fcf0(ReadCycle::TxTimeout), 0xFF);
    assert_eq!((t.tx_timeout_count(), t.rx_timeout_count()), (1, 0));
    assert_eq!(t.read_fcf1(ReadCycle::RxTimeout), 0xFF);
    assert_eq!((t.tx_timeout_count(), t.rx_timeout_count()), (1, 1));
    assert_eq!(t.read_fcf1(ReadCycle::TxTimeout), 0xFF);
    assert_eq!(t.read_fcf0(ReadCycle::RxTimeout), 0xFF);
    assert_eq!(t.read_fcf0(ReadCycle::RxTimeout), 0xFF);
    assert_eq!((t.tx_timeout_count(), t.rx_timeout_count()), (2, 3));
    assert_eq!(t.last_read_word(), 0xF000);
}

#[test]
fn detached_reads_answer_from_the_injected_reply() {
    let mut t = Rp2040FredTransport::new();
    assert_eq!(t.read_fcf0(ReadCycle::Detached), 0x00);
    assert_eq!(t.read_fcf1(ReadCycle::Detached), 0x00);
    t.inject_mock_reply(FredReply { status_fcf0: 0x5A, response_fcf1: 0xA5 });
    assert_eq!(t.read_fcf0(ReadCycle::Detached), 0x5A);
    assert_eq!(t.read_fcf1(ReadCycle::Detached), 0xA5);
    assert_eq!(t.last_read_word(), 0xF100);
    assert_eq!((t.tx_timeout_count(), t.rx_timeout_count()), (0, 0));
    // A real cycle does not read the injected bytes.
    assert_eq!(t.read_fcf1(ReadCycle::Data(7)), 7);
}
