use psx::interrupt_controller::{InterruptController, InterruptRequest};

#[test]
fn starts_with_nothing_pending() {
    let controller = InterruptController::new();
    assert_eq!(controller.read_status(), 0);
    assert_eq!(controller.read_mask(), 0);
    assert!(!controller.pending(false));
}

#[test]
fn request_sets_the_bit_of_its_source() {
    let sources = [
        (InterruptRequest::VBlank, 0),
        (InterruptRequest::GPU, 1),
        (InterruptRequest::CDROM, 2),
        (InterruptRequest::DMA, 3),
        (InterruptRequest::Timer0, 4),
        (InterruptRequest::Timer1, 5),
        (InterruptRequest::Timer2, 6),
        (InterruptRequest::Controller, 7),
        (InterruptRequest::SIO, 8),
        (InterruptRequest::SPU, 9),
    ];
    for (source, bit) in sources {
        let mut controller = InterruptController::new();
        controller.request(source);
        assert_eq!(controller.read_status(), 1 << bit);
        assert_eq!(source.bit(), bit);
    }
}

#[test]
fn pending_needs_status_and_mask() {
    let mut controller = InterruptController::new();
    controller.request(InterruptRequest::CDROM);
    assert!(!controller.pending(false));
    controller.write_mask(0b0000_0011);
    assert!(!controller.pending(true));
    controller.write_mask(0b0000_0100);
    assert!(controller.pending(false));
    assert_eq!(controller.read_status() & controller.read_mask(), 0b100);
}

#[test]
fn write_status_keeps_the_bits_written_as_one() {
    let mut controller = InterruptController::new();
    controller.request(InterruptRequest::VBlank);
    controller.request(InterruptRequest::DMA);
    controller.request(InterruptRequest::SPU);
    assert_eq!(controller.read_status(), 0b10_0000_1001);
    controller.write_status(0b10_0000_0001);
    assert_eq!(controller.read_status(), 0b10_0000_0001);
    // No bit is ever set by a write.
    controller.write_status(0xFFFF);
    assert_eq!(controller.read_status(), 0b10_0000_0001);
    controller.write_status(0);
    assert_eq!(controller.read_status(), 0);
}

#[test]
fn registers_keep_eleven_bits() {
    let mut controller = InterruptController::new();
    controller.write_mask(0xFFFF);
    assert_eq!(controller.read_mask(), 0x7FF);
    controller.write_mask(0x1234);
    assert_eq!(controller.read_mask(), 0x234);
}
