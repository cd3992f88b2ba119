use gicv3::Gic;
use gicv3::distributor::DEFAULT_SGI_PRIORITY;
use gicv3::sgi::SGI_TARGET_LIST;

#[test]
fn interrupt_count_follows_typer_field() {
    // A bank-count field of 3 means (3 + 1) * 32 = 128 lines.
    let gic = Gic::power_on(0x0000_0003, 0);
    assert_eq!(gic.get_num_interrupts(), 128);
    assert_eq!(gic.read_typer(), 3);
}

#[test]
fn interrupt_count_edge_values() {
    assert_eq!(Gic::power_on(0, 0).get_num_interrupts(), 32);
    assert_eq!(Gic::power_on(0x1F, 0).get_num_interrupts(), 1024);
    // Only the low five bits of the type register count.
    assert_eq!(Gic::power_on(0xFFFF_FFE3, 0).get_num_interrupts(), 128);
}

#[test]
fn init_configures_distributor_tables() {
    let mut gic = Gic::power_on(3, 2);
    gic.init();
    // Both group enables set, all SGIs in group 1, uniform default
    // priority across the SGI priority registers.
    assert_eq!(gic.distributor.ctlr, 0b11);
    assert_eq!(gic.distributor.igroupr0, 0xFFFF_FFFF);
    for k in 0..4 {
        assert_eq!(gic.distributor.ipriorityr[k], 0xA0A0_A0A0);
    }
}

#[test]
fn init_enables_sgis_and_timer() {
    let mut gic = Gic::power_on(3, 2);
    gic.init();
    for id in 0..=15u8 {
        assert!(gic.is_sgi_enabled(id));
        let reg = gic.redistributor.ipriorityr[(id / 4) as usize];
        let lane = ((reg >> (8 * (id % 4))) & 0xFF) as u8;
        assert_eq!(lane, DEFAULT_SGI_PRIORITY);
    }
    // Timer interrupt (id 30): enabled, group 1, default priority.
    assert!(gic.redistributor.isenabler0 & (1 << 30) != 0);
    assert!(gic.redistributor.igroupr0 & (1 << 30) != 0);
    let timer_reg = gic.redistributor.ipriorityr[7];
    assert_eq!((timer_reg >> 16) & 0xFF, DEFAULT_SGI_PRIORITY as u32);
}

#[test]
fn enable_then_disable_sgi_round_trip() {
    let mut gic = Gic::power_on(3, 0);
    gic.init();
    for id in 0..=15u8 {
        gic.disable_sgi(id);
        assert!(!gic.is_sgi_enabled(id));
        gic.enable_sgi(id);
        assert!(gic.is_sgi_enabled(id));
        gic.disable_sgi(id);
        assert!(!gic.is_sgi_enabled(id));
    }
}

#[test]
fn out_of_range_ids_are_noops() {
    let mut gic = Gic::power_on(3, 0);
    gic.init();
    gic.enable_sgi(5);
    gic.set_sgi_priority(5, 0x20);

    let ctlr = gic.distributor.ctlr;
    let enables = gic.redistributor.isenabler0;
    let pending = gic.redistributor.ispendr0;
    let groups = gic.redistributor.igroupr0;
    let priorities = gic.redistributor.ipriorityr.clone();
    let requests = gic.cpu_interface.sgi_requests.len();

    for id in [16u8, 17, 99, 255] {
        gic.enable_sgi(id);
        gic.disable_sgi(id);
        gic.clear_sgi_pending(id);
        gic.clear_pending_sgi(id);
        gic.set_sgi_priority(id, 0x00);
        gic.send_sgi(id, 0xFFFF, SGI_TARGET_LIST);
        assert!(!gic.is_sgi_enabled(id));
    }

    assert_eq!(gic.distributor.ctlr, ctlr);
    assert_eq!(gic.redistributor.isenabler0, enables);
    assert_eq!(gic.redistributor.ispendr0, pending);
    assert_eq!(gic.redistributor.igroupr0, groups);
    assert_eq!(gic.redistributor.ipriorityr, priorities);
    assert_eq!(gic.cpu_interface.sgi_requests.len(), requests);
    // The valid id configured before is untouched.
    assert!(gic.is_sgi_enabled(5));
}

#[test]
fn priority_write_reads_back_in_its_lane() {
    let mut gic = Gic::power_on(3, 0);
    gic.init();
    // Id 6 lives in byte lane 2 of register 1.
    gic.set_sgi_priority(6, 0x55);
    let reg = gic.redistributor.ipriorityr[1];
    assert_eq!((reg >> 16) & 0xFF, 0x55);
    // The other three lanes of the register keep the default.
    assert_eq!(reg & 0xFF, DEFAULT_SGI_PRIORITY as u32);
    assert_eq!((reg >> 8) & 0xFF, DEFAULT_SGI_PRIORITY as u32);
    assert_eq!((reg >> 24) & 0xFF, DEFAULT_SGI_PRIORITY as u32);
    // The neighbouring registers are untouched.
    assert_eq!(gic.redistributor.ipriorityr[0], 0xA0A0_A0A0);
    assert_eq!(gic.redistributor.ipriorityr[2], 0xA0A0_A0A0);
}

#[test]
fn priority_writes_do_not_cross_talk_within_a_register() {
    let mut gic = Gic::power_on(3, 0);
    gic.init();
    gic.set_sgi_priority(8, 0x11);
    gic.set_sgi_priority(9, 0x22);
    gic.set_sgi_priority(10, 0x33);
    gic.set_sgi_priority(11, 0x44);
    let reg = gic.redistributor.ipriorityr[2];
    assert_eq!(reg & 0xFF, 0x11);
    assert_eq!((reg >> 8) & 0xFF, 0x22);
    assert_eq!((reg >> 16) & 0xFF, 0x33);
    assert_eq!((reg >> 24) & 0xFF, 0x44);
}

#[test]
fn clearing_pending_does_not_disable() {
    let mut gic = Gic::power_on(3, 0);
    gic.init();
    gic.send_sgi_to_self(6);
    assert!(gic.redistributor.ispendr0 & (1 << 6) != 0);
    // Pending-clear targets the clear-pending register, so the enable
    // bit survives.
    gic.clear_pending_sgi(6);
    assert!(gic.redistributor.ispendr0 & (1 << 6) == 0);
    assert!(gic.is_sgi_enabled(6));
}
