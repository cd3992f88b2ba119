use gicv3::Gic;
use gicv3::gic::gic_init;
use gicv3::redistributor::Redistributor;

#[test]
fn distributor_enable_blocked_until_wake_completes() {
    // Simulated handshake: the waker needs five polls before the
    // children report awake.
    let mut gic = Gic::power_on(3, 5);
    assert!(!gic.enable_distributor());
    assert_eq!(gic.distributor.ctlr, 0);
    assert!(!gic.enable_cpu_interface());
    assert_eq!(gic.cpu_interface.sre, 0);

    gic.redistributor.wake();
    assert!(gic.redistributor.is_awake());
    assert!(gic.enable_cpu_interface());
    assert!(gic.enable_distributor());
    assert_eq!(gic.distributor.ctlr, 0b11);
}

#[test]
fn init_runs_the_handshake_before_enabling() {
    let mut gic = Gic::power_on(3, 1000);
    assert!(!gic.redistributor.is_awake());
    gic.init();
    assert!(gic.redistributor.is_awake());
    assert!(!gic.redistributor.waker_processor_sleep);
    assert_eq!(gic.distributor.ctlr, 0b11);
    assert_eq!(gic.cpu_interface.sre, 0b111);
    assert_eq!(gic.cpu_interface.pmr, 0xFF);
    assert_eq!(gic.cpu_interface.igrpen1, 1);
    assert_eq!(gic.cpu_interface.ctlr, 0);
}

#[test]
fn wake_spins_through_the_latency() {
    let mut redistributor = Redistributor::power_on(3);
    assert!(!redistributor.is_awake());
    redistributor.wake();
    assert!(redistributor.is_awake());
    assert!(!redistributor.waker_processor_sleep);
    assert_eq!(redistributor.wake_delay, 0);
}

#[test]
fn poll_makes_no_progress_while_sleep_requested() {
    let mut redistributor = Redistributor::power_on(2);
    // With the sleep request still posted, polling never wakes.
    for _ in 0..10 {
        assert!(redistributor.poll_waker());
    }
    assert!(!redistributor.is_awake());
    assert_eq!(redistributor.wake_delay, 2);
}

#[test]
fn gic_init_free_function_brings_the_controller_up() {
    let mut gic = Gic::power_on(1, 4);
    gic_init(&mut gic);
    assert!(gic.redistributor.is_awake());
    assert_eq!(gic.distributor.ctlr, 0b11);
    for id in 0..=15u8 {
        assert!(gic.is_sgi_enabled(id));
    }
}
