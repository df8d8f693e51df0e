use ember::device::{
    find_memory_type, graphics_queue_family, rate, select_device, Candidate, DeviceKind,
};

fn c(rating: u32, kind: DeviceKind) -> Candidate {
    Candidate { rating, kind }
}

#[test]
fn rating_counts_missing_optional_extensions() {
    assert_eq!(rate(&vec![true], &vec![true, false, true, false, false]), Some(3));
    assert_eq!(rate(&vec![true, true], &vec![]), Some(0));
    assert_eq!(rate(&vec![], &vec![true, true]), Some(0));
    assert_eq!(rate(&vec![true, false], &vec![true]), None);
    assert_eq!(rate(&vec![false], &vec![false, false]), None);
}

#[test]
fn lowest_rating_wins_then_kind_then_first() {
    assert_eq!(select_device(&vec![]), None);
    assert_eq!(select_device(&vec![c(3, DeviceKind::Cpu)]), Some(0));
    assert_eq!(
        select_device(&vec![c(2, DeviceKind::Discrete), c(1, DeviceKind::Cpu), c(1, DeviceKind::Integrated)]),
        Some(2)
    );
    assert_eq!(
        select_device(&vec![c(0, DeviceKind::Integrated), c(0, DeviceKind::Discrete), c(0, DeviceKind::Discrete)]),
        Some(1)
    );
    assert_eq!(
        select_device(&vec![c(1, DeviceKind::Other), c(1, DeviceKind::Other), c(2, DeviceKind::Discrete)]),
        Some(0)
    );
    assert_eq!(
        select_device(&vec![c(5, DeviceKind::Virtual), c(5, DeviceKind::Cpu), c(5, DeviceKind::Virtual)]),
        Some(0)
    );
}

#[test]
fn first_graphics_family() {
    assert_eq!(graphics_queue_family(&vec![2, 4, 7, 1]), Some(2));
    assert_eq!(graphics_queue_family(&vec![1]), Some(0));
    assert_eq!(graphics_queue_family(&vec![2, 4, 8]), None);
    assert_eq!(graphics_queue_family(&vec![]), None);
}

#[test]
fn first_fitting_memory_type() {
    // host visible (2) and host coherent (4) are wanted
    let props = vec![1, 6, 7, 14];
    assert_eq!(find_memory_type(0b1111, &props, 6), Some(1));
    assert_eq!(find_memory_type(0b1101, &props, 6), Some(2));
    assert_eq!(find_memory_type(0b1000, &props, 6), Some(3));
    assert_eq!(find_memory_type(0b0001, &props, 6), None);
    assert_eq!(find_memory_type(0, &props, 0), None);
    assert_eq!(find_memory_type(u32::MAX, &vec![], 0), None);
    assert_eq!(find_memory_type(u32::MAX, &vec![0; 40], 1), None);
    let mut many = vec![0; 40];
    many[31] = 1;
    many[35] = 1;
    assert_eq!(find_memory_type(u32::MAX, &many, 1), Some(31));
    many[31] = 0;
    assert_eq!(find_memory_type(u32::MAX, &many, 1), None);
}
