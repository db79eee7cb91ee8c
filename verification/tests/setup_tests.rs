use netbricks::context::PortError;
use netbricks::setup::{PortSpec, SetupEvent, SetupStep, SystemConfig, SystemSetup};

fn port(name: &str, rx: Vec<i32>) -> PortSpec {
    PortSpec { name: name.to_string(), rx_queues: rx }
}

/// Runs setup, making every port and queue asked for unless `fail_at`
/// names the step that fails; returns the steps asked for.
fn run(setup: &mut SystemSetup, fail_at: Option<usize>) -> Vec<SetupStep> {
    let mut steps = Vec::new();
    let mut event = SetupEvent::Start;
    loop {
        let step = setup.step(event);
        steps.push(step);
        if step == SetupStep::Finished {
            return steps;
        }
        event = if Some(steps.len() - 1) == fail_at {
            SetupEvent::Failed("Boom".to_string())
        } else {
            SetupEvent::Made
        };
    }
}

#[test]
fn setup_makes_ports_and_queues_in_order() {
    let config = SystemConfig {
        cores: vec![0],
        strict: false,
        ports: vec![port("a", vec![0, 1]), port("b", vec![]), port("c", vec![2])],
    };
    let mut setup = SystemSetup::new(config);
    let steps = run(&mut setup, None);
    assert_eq!(
        steps,
        vec![
            SetupStep::MakePort(0),
            SetupStep::MakeQueue(0, 0),
            SetupStep::MakeQueue(0, 1),
            SetupStep::MakePort(1),
            SetupStep::MakePort(2),
            SetupStep::MakeQueue(2, 0),
            SetupStep::Finished,
        ]
    );
    let mut cores = match setup.result.take() {
        Some(Ok(v)) => v,
        other => panic!("unexpected {:?}", other),
    };
    cores.sort();
    assert_eq!(cores, vec![0, 1, 2]);
    assert_eq!(setup.init.queue_cores, vec![0, 1, 2]);
}

#[test]
fn repeated_port_name_is_refused_before_it_is_made() {
    let config = SystemConfig {
        cores: vec![0],
        strict: false,
        ports: vec![port("eth0", vec![0]), port("eth1", vec![]), port("eth0", vec![0]), port("eth2", vec![])],
    };
    let mut setup = SystemSetup::new(config);
    let steps = run(&mut setup, None);
    assert_eq!(
        steps,
        vec![
            SetupStep::MakePort(0),
            SetupStep::MakeQueue(0, 0),
            SetupStep::MakePort(1),
            SetupStep::Finished,
        ]
    );
    match &setup.result {
        Some(Err(e)) => {
            assert_eq!(e.message(), "Port eth0 appears twice in specification");
            assert_eq!(
                e.display(),
                "Port configuration error: Port eth0 appears twice in specification"
            );
        }
        other => panic!("unexpected {:?}", other),
    }
    assert_eq!(setup.step(SetupEvent::Made), SetupStep::Finished);
    assert_eq!(setup.init.port_names, vec!["eth0".to_string(), "eth1".to_string()]);
}

#[test]
fn failed_port_ends_setup() {
    let config = SystemConfig {
        cores: vec![0],
        strict: false,
        ports: vec![port("p0", vec![0]), port("p1", vec![1])],
    };
    let mut setup = SystemSetup::new(config);
    let steps = run(&mut setup, Some(2));
    assert_eq!(steps, vec![SetupStep::MakePort(0), SetupStep::MakeQueue(0, 0), SetupStep::MakePort(1), SetupStep::Finished]);
    match &setup.result {
        Some(Err(e)) => assert_eq!(e.message(), "Port p1 could not be initialized Boom"),
        other => panic!("unexpected {:?}", other),
    }
}

#[test]
fn failed_queue_ends_setup() {
    let config = SystemConfig {
        cores: vec![0],
        strict: false,
        ports: vec![port("p0", vec![0, 3])],
    };
    let mut setup = SystemSetup::new(config);
    let steps = run(&mut setup, Some(2));
    assert_eq!(steps, vec![SetupStep::MakePort(0), SetupStep::MakeQueue(0, 0), SetupStep::MakeQueue(0, 1), SetupStep::Finished]);
    match &setup.result {
        Some(Err(e)) => assert_eq!(e.message(), "Queue 1 on port p0 could not be initialized Boom"),
        other => panic!("unexpected {:?}", other),
    }
}

#[test]
fn strict_setup_reports_unlisted_cores() {
    let config = SystemConfig {
        cores: vec![0],
        strict: true,
        ports: vec![port("p0", vec![0, 12])],
    };
    let mut setup = SystemSetup::new(config);
    run(&mut setup, None);
    match &setup.result {
        Some(Err(e)) => assert_eq!(
            e.message(),
            "Strict configuration selected but core(s) 12 appear in port configuration but not in cores"
        ),
        other => panic!("unexpected {:?}", other),
    }
}

#[test]
fn error_messages() {
    assert_eq!(
        PortError::QueueInit { queue: -7, port: "x".to_string(), reason: "E".to_string() }.message(),
        "Queue -7 on port x could not be initialized E"
    );
    assert_eq!(
        PortError::UnlistedCores(vec![3, 10, 205]).message(),
        "Strict configuration selected but core(s) 3, 10, 205 appear in port configuration but not in cores"
    );
    assert_eq!(
        PortError::PortInit { port: "dpdk0".to_string(), reason: "Err(1)".to_string() }.message(),
        "Port dpdk0 could not be initialized Err(1)"
    );
}
