use netbricks::context::{check_scheduler_on_core, PortError, SchedulerError, SystemInit};
use netbricks::port::{fib, PortStats, SimulatePort};

#[test]
fn fib_values() {
    assert_eq!(fib(0), 0);
    assert_eq!(fib(1), 1);
    assert_eq!(fib(2), 1);
    assert_eq!(fib(10), 55);
    assert_eq!(fib(20), 6765);
}

#[test]
fn port_counts_packets() {
    let mut port = SimulatePort::new();
    assert_eq!(port.stats(), (0, 0));
    port.record_sent(32);
    port.record_received(5);
    port.record_sent(1);
    assert_eq!(port.stats(), (5, 33));
}

#[test]
fn port_counter_wraps() {
    let mut s = PortStats::new();
    s.add(usize::MAX);
    s.add(3);
    assert_eq!(s.stats, 2);
}

#[test]
fn duplicate_port_names_are_refused() {
    let mut init = SystemInit::new(vec![0], false);
    assert!(init.check_port(&"eth0".to_string()).is_ok());
    init.add_port("eth0".to_string());
    assert!(init.check_port(&"eth1".to_string()).is_ok());
    match init.check_port(&"eth0".to_string()) {
        Err(PortError::DuplicatePort(name)) => assert_eq!(name, "eth0"),
        other => panic!("unexpected {:?}", other),
    }
}

fn sorted(mut v: Vec<i32>) -> Vec<i32> {
    v.sort();
    v
}

#[test]
fn lenient_configuration_adds_queue_cores() {
    let mut init = SystemInit::new(vec![2, 0, 2], false);
    init.add_queue(1);
    init.add_queue(0);
    init.add_queue(1);
    let active = init.active_cores().unwrap();
    assert_eq!(sorted(active), vec![0, 1, 2]);
}

#[test]
fn strict_configuration_accepts_listed_cores() {
    let mut init = SystemInit::new(vec![3, 1], true);
    init.add_queue(1);
    init.add_queue(3);
    assert_eq!(sorted(init.active_cores().unwrap()), vec![1, 3]);
}

#[test]
fn strict_configuration_refuses_unlisted_cores() {
    let mut init = SystemInit::new(vec![0], true);
    init.add_queue(4);
    init.add_queue(0);
    init.add_queue(5);
    init.add_queue(4);
    match init.active_cores() {
        Err(PortError::UnlistedCores(cores)) => assert_eq!(sorted(cores), vec![4, 5]),
        other => panic!("unexpected {:?}", other),
    }
}

#[test]
fn queues_are_handed_to_their_core() {
    let mut init = SystemInit::new(vec![], false);
    for core in [0, 1, 0, 2, 0] {
        init.add_queue(core);
    }
    assert_eq!(init.queues_of_core(0), vec![0, 2, 4]);
    assert_eq!(init.queues_of_core(2), vec![3]);
    assert_eq!(init.queues_of_core(9), Vec::<usize>::new());
}

#[test]
fn pipelines_need_a_running_scheduler() {
    let running = vec![0, 3];
    assert_eq!(check_scheduler_on_core(&running, 3), Ok(()));
    assert_eq!(
        check_scheduler_on_core(&running, 1),
        Err(SchedulerError::NoRunningSchedulerOnCore(1))
    );
}
