use gicv3::Gic;
use gicv3::gic::send_sgi;
use gicv3::gic::send_sgi_broadcast;
use gicv3::gic::send_sgi_to_self;
use gicv3::sgi::SGI_TARGET_ALL_EXCEPT_SELF;
use gicv3::sgi::SGI_TARGET_LIST;
use gicv3::sgi::SGI_TARGET_SELF;

fn ready_gic() -> Gic {
    let mut gic = Gic::power_on(3, 1);
    gic.init();
    gic
}

#[test]
fn broadcast_word_sets_routing_mode_bit() {
    let mut gic = ready_gic();
    gic.send_sgi(5, 0, SGI_TARGET_ALL_EXCEPT_SELF);
    let request = *gic.cpu_interface.sgi_requests.last().unwrap();
    assert_eq!((request.routing >> 24) & 0xFF, 5);
    assert_eq!((request.routing >> 16) & 1, 1);
    assert_eq!(request.affinity, 0);
    // All-except-self routing never pends locally.
    assert_eq!(gic.redistributor.ispendr0, 0);
}

#[test]
fn target_list_word_encodes_core_bit_and_id() {
    let mut gic = ready_gic();
    gic.send_sgi(5, 0b100, SGI_TARGET_LIST);
    let request = *gic.cpu_interface.sgi_requests.last().unwrap();
    assert_eq!((request.routing >> 24) & 0xFF, 5);
    assert_eq!((request.routing >> 16) & 1, 0);
    assert_eq!(request.routing & 0xFFFF, 0b100);
    assert_eq!(request.affinity, 0);
    // Core 2 was addressed, not this core.
    assert_eq!(gic.redistributor.ispendr0, 0);
}

#[test]
fn self_filter_addresses_the_issuing_core() {
    let mut gic = ready_gic();
    gic.send_sgi(9, 0xBEEF, SGI_TARGET_SELF);
    let request = *gic.cpu_interface.sgi_requests.last().unwrap();
    assert_eq!((request.routing >> 24) & 0xFF, 9);
    assert_eq!((request.routing >> 16) & 1, 0);
    assert_eq!(request.routing & 0xFFFF, 1);
    assert!(gic.redistributor.ispendr0 & (1 << 9) != 0);
}

#[test]
fn send_to_cpu_sets_the_target_bit() {
    let mut gic = ready_gic();
    gic.send_sgi_to_cpu(7, 2);
    let request = *gic.cpu_interface.sgi_requests.last().unwrap();
    assert_eq!(request.routing & 0xFFFF, 0b100);
    assert_eq!((request.routing >> 24) & 0xFF, 7);
    assert_eq!(gic.redistributor.ispendr0, 0);

    gic.send_sgi_to_cpu(7, 0);
    assert!(gic.redistributor.ispendr0 & (1 << 7) != 0);
}

#[test]
fn send_to_cpu_rejects_out_of_range_core() {
    let mut gic = ready_gic();
    let requests = gic.cpu_interface.sgi_requests.len();
    gic.send_sgi_to_cpu(7, 16);
    gic.send_sgi_to_cpu(7, 255);
    assert_eq!(gic.cpu_interface.sgi_requests.len(), requests);
}

#[test]
fn send_to_self_pends_locally() {
    let mut gic = ready_gic();
    gic.send_sgi_to_self(3);
    assert!(gic.redistributor.ispendr0 & (1 << 3) != 0);
    let request = *gic.cpu_interface.sgi_requests.last().unwrap();
    assert_eq!((request.routing >> 24) & 0xFF, 3);
    assert_eq!((request.routing >> 16) & 1, 0);
    assert_eq!(request.routing & 0xFFFF, 1);
}

#[test]
fn out_of_range_sgi_is_not_issued() {
    let mut gic = ready_gic();
    gic.send_sgi(16, 1, SGI_TARGET_LIST);
    gic.send_sgi_to_self(200);
    assert_eq!(gic.cpu_interface.sgi_requests.len(), 0);
    assert_eq!(gic.redistributor.ispendr0, 0);
}

#[test]
fn convenience_functions_issue_the_same_words() {
    let mut gic = ready_gic();
    send_sgi(&mut gic, 4, 1);
    let request = *gic.cpu_interface.sgi_requests.last().unwrap();
    assert_eq!(request.routing & 0xFFFF, 0b10);
    assert_eq!((request.routing >> 24) & 0xFF, 4);

    send_sgi_broadcast(&mut gic, 8);
    let request = *gic.cpu_interface.sgi_requests.last().unwrap();
    assert_eq!((request.routing >> 16) & 1, 1);
    assert_eq!((request.routing >> 24) & 0xFF, 8);

    send_sgi_to_self(&mut gic, 2);
    let request = *gic.cpu_interface.sgi_requests.last().unwrap();
    assert_eq!(request.routing & 0xFFFF, 1);
    assert!(gic.redistributor.ispendr0 & (1 << 2) != 0);
}
