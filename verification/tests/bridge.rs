use eth_bridge::egress::EgressHandle;
use eth_bridge::interface::select_interface;
use eth_bridge::MAX_FRAME_SIZE;

#[test]
fn max_frame_size_is_four_kibibytes() {
    assert_eq!(MAX_FRAME_SIZE, 4096);
}

#[test]
fn transmits_are_recorded_whole_and_in_order() {
    let mut egress = EgressHandle::new();
    assert_eq!(egress.count(), 0);
    egress.transmit(vec![1u8, 2]);
    egress.transmit(vec![3u8]);
    assert_eq!(egress.count(), 2);
    assert_eq!(egress.frame_at(0), &vec![1u8, 2]);
    assert_eq!(egress.frame_at(1), &vec![3u8]);
}

#[test]
fn selects_first_interface_with_matching_name() {
    let names = vec![
        String::from("lo"),
        String::from("veth-carla"),
        String::from("veth-carla"),
    ];
    assert_eq!(select_interface(&names, &String::from("veth-carla")), Some(1));
    assert_eq!(select_interface(&names, &String::from("lo")), Some(0));
}

#[test]
fn reports_absent_interface() {
    let names = vec![String::from("lo")];
    assert_eq!(select_interface(&names, &String::from("eth9")), None);
    assert_eq!(select_interface(&Vec::new(), &String::from("lo")), None);
}
