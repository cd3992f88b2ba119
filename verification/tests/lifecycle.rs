use gicv3::Gic;
use gicv3::gic::SPURIOUS_INTERRUPT_ID;

fn ready_gic() -> Gic {
    let mut gic = Gic::power_on(3, 1);
    gic.init();
    gic
}

#[test]
fn acknowledge_without_pending_is_spurious() {
    let mut gic = ready_gic();
    assert_eq!(gic.read_highest_pending(), SPURIOUS_INTERRUPT_ID);
    assert_eq!(gic.read_interrupt_ack(), SPURIOUS_INTERRUPT_ID);
    assert_eq!(gic.read_running_priority(), 0xFF);
}

#[test]
fn ack_eoi_round_trip_restores_running_priority() {
    let mut gic = ready_gic();
    gic.send_sgi_to_self(3);
    assert_eq!(gic.read_running_priority(), 0xFF);
    assert_eq!(gic.read_highest_pending(), 3);

    // Acknowledge: pending becomes active, running priority rises to
    // the interrupt's configured priority.
    let iar = gic.read_interrupt_ack();
    assert_eq!(Gic::get_interrupt_id(iar), 3);
    assert!(gic.redistributor.ispendr0 & (1 << 3) == 0);
    assert!(gic.redistributor.isactiver0 & (1 << 3) != 0);
    assert_eq!(gic.read_running_priority(), 0xA0);

    // End of interrupt: running priority back to idle, interrupt
    // inactive again (the source does not re-assert).
    gic.write_end_of_interrupt_group1(3);
    assert_eq!(gic.read_running_priority(), 0xFF);
    assert!(gic.redistributor.isactiver0 & (1 << 3) == 0);
    assert!(gic.redistributor.ispendr0 & (1 << 3) == 0);
}

#[test]
fn higher_priority_interrupt_is_acknowledged_first() {
    let mut gic = ready_gic();
    gic.set_sgi_priority(2, 0x40);
    gic.set_sgi_priority(9, 0x20);
    gic.send_sgi_to_self(2);
    gic.send_sgi_to_self(9);

    // Lower numeric value wins.
    assert_eq!(gic.read_highest_pending(), 9);
    assert_eq!(gic.read_interrupt_ack(), 9);
    assert_eq!(gic.read_running_priority(), 0x20);

    // The lower-priority SGI stays masked until the first completes.
    assert_eq!(gic.read_highest_pending(), SPURIOUS_INTERRUPT_ID);
    gic.write_end_of_interrupt_group1(9);
    assert_eq!(gic.read_running_priority(), 0xFF);
    assert_eq!(gic.read_interrupt_ack(), 2);
    gic.write_end_of_interrupt_group1(2);
    assert_eq!(gic.read_running_priority(), 0xFF);
}

#[test]
fn nested_acknowledge_unwinds_in_order() {
    let mut gic = ready_gic();
    gic.set_sgi_priority(2, 0x40);
    gic.set_sgi_priority(9, 0x20);
    gic.send_sgi_to_self(2);
    assert_eq!(gic.read_interrupt_ack(), 2);
    assert_eq!(gic.read_running_priority(), 0x40);

    // A strictly higher-priority SGI preempts the running one.
    gic.send_sgi_to_self(9);
    assert_eq!(gic.read_interrupt_ack(), 9);
    assert_eq!(gic.read_running_priority(), 0x20);

    gic.write_end_of_interrupt_group1(9);
    assert_eq!(gic.read_running_priority(), 0x40);
    gic.write_end_of_interrupt_group1(2);
    assert_eq!(gic.read_running_priority(), 0xFF);
}

#[test]
fn equal_priority_does_not_preempt() {
    let mut gic = ready_gic();
    gic.send_sgi_to_self(4);
    assert_eq!(gic.read_interrupt_ack(), 4);
    // A second SGI at the same priority stays pending.
    gic.send_sgi_to_self(5);
    assert_eq!(gic.read_highest_pending(), SPURIOUS_INTERRUPT_ID);
    gic.write_end_of_interrupt_group1(4);
    assert_eq!(gic.read_interrupt_ack(), 5);
    gic.write_end_of_interrupt_group1(5);
}

#[test]
fn eoi_mode_1_splits_priority_drop_and_deactivation() {
    let mut gic = ready_gic();
    gic.write_icc_ctlr(0b10);
    gic.send_sgi_to_self(4);
    assert_eq!(gic.read_interrupt_ack(), 4);
    assert_eq!(gic.read_running_priority(), 0xA0);

    // Mode 1: end of interrupt drops priority but leaves the interrupt
    // active, so it cannot be delivered again yet.
    gic.write_end_of_interrupt_group1(4);
    assert_eq!(gic.read_running_priority(), 0xFF);
    assert!(gic.redistributor.isactiver0 & (1 << 4) != 0);
    gic.send_sgi_to_self(4);
    assert_eq!(gic.read_highest_pending(), SPURIOUS_INTERRUPT_ID);

    // Deactivation completes the lifecycle and delivery resumes.
    gic.write_deactivate_interrupt(4);
    assert!(gic.redistributor.isactiver0 & (1 << 4) == 0);
    assert_eq!(gic.read_interrupt_ack(), 4);
    gic.write_end_of_interrupt_group1(4);
}

#[test]
fn priority_mask_blocks_lowest_priority() {
    let mut gic = ready_gic();
    gic.set_sgi_priority(5, 0xFF);
    gic.send_sgi_to_self(5);
    // Priority 0xFF is not strictly below the mask, so nothing is
    // signalled.
    assert_eq!(gic.read_highest_pending(), SPURIOUS_INTERRUPT_ID);
    assert_eq!(gic.read_interrupt_ack(), SPURIOUS_INTERRUPT_ID);

    gic.set_sgi_priority(5, 0x00);
    assert_eq!(gic.read_interrupt_ack(), 5);
    assert_eq!(gic.read_running_priority(), 0x00);
    gic.write_end_of_interrupt_group1(5);
}

#[test]
fn disabled_sgi_is_not_delivered() {
    let mut gic = ready_gic();
    gic.disable_sgi(3);
    gic.send_sgi_to_self(3);
    assert!(gic.redistributor.ispendr0 & (1 << 3) != 0);
    assert_eq!(gic.read_interrupt_ack(), SPURIOUS_INTERRUPT_ID);

    gic.enable_sgi(3);
    assert_eq!(gic.read_interrupt_ack(), 3);
    gic.write_end_of_interrupt_group1(3);
}

#[test]
fn delivery_requires_the_distributor_enable() {
    let mut gic = Gic::power_on(3, 0);
    gic.redistributor.wake();
    gic.redistributor.configure_private();
    assert!(gic.enable_cpu_interface());
    // The distributor is still off: a locally pended SGI is not
    // signalled until the global enable.
    gic.send_sgi_to_self(1);
    assert_eq!(gic.read_interrupt_ack(), SPURIOUS_INTERRUPT_ID);
    assert!(gic.enable_distributor());
    assert_eq!(gic.read_interrupt_ack(), 1);
    gic.write_end_of_interrupt_group1(1);
}

#[test]
fn interrupt_id_field_is_the_low_ten_bits() {
    assert_eq!(Gic::get_interrupt_id(0x1403), 3);
    assert_eq!(Gic::get_interrupt_id(1023), 1023);
    assert_eq!(Gic::get_interrupt_id(0xFFFF_FFFF), 0x3FF);
    assert_eq!(Gic::get_interrupt_id(30), 30);
}
