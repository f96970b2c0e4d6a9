use cpu_broadcast::hub::Hub;
use cpu_broadcast::sampler::Sampler;
use cpu_broadcast::session::{Phase, Session, Step};

#[test]
fn tick_publishes_without_viewers() {
    let mut hub = Hub::new();
    let mut sampler = Sampler::new();
    for _ in 0..5 {
        sampler.tick(&mut hub);
    }
    let mut viewer = Session::new();
    viewer.connect(&mut hub);
    assert!(matches!(viewer.poll(&mut hub), Step::Wait));
    sampler.tick(&mut hub);
    assert!(matches!(viewer.poll(&mut hub), Step::Send(_)));
    assert!(matches!(viewer.poll(&mut hub), Step::Wait));
}

#[test]
fn every_tick_reaches_every_viewer_with_the_same_reading() {
    let mut hub = Hub::new();
    let mut sampler = Sampler::new();
    let mut first = Session::new();
    let mut second = Session::new();
    first.connect(&mut hub);
    second.connect(&mut hub);
    let mut widths: Vec<usize> = Vec::new();
    for _ in 0..3 {
        sampler.tick(&mut hub);
        let to_first = match first.poll(&mut hub) {
            Step::Send(snapshot) => snapshot,
            other => panic!("first viewer got {:?}", other),
        };
        let to_second = match second.poll(&mut hub) {
            Step::Send(snapshot) => snapshot,
            other => panic!("second viewer got {:?}", other),
        };
        assert_eq!(to_first, to_second);
        widths.push(to_first.len());
    }
    assert_eq!(widths[0], widths[1]);
    assert_eq!(widths[1], widths[2]);
}

#[test]
fn tick_after_shutdown_disturbs_nobody() {
    let mut hub = Hub::new();
    let mut sampler = Sampler::new();
    let mut viewer = Session::new();
    viewer.connect(&mut hub);
    hub.close();
    sampler.tick(&mut hub);
    assert!(matches!(viewer.poll(&mut hub), Step::Release));
    assert_eq!(viewer.phase(), Phase::Closing);
}

#[test]
fn new_handle_lists_no_processor() {
    let system = sysinfo::System::new();
    assert!(system.cpus().is_empty());
}

#[test]
fn tick_publishes_one_value_per_listed_processor() {
    let mut system = sysinfo::System::new();
    system.refresh_cpu_usage();
    let listed = system.cpus().len();

    let mut hub = Hub::new();
    let mut sampler = Sampler::new();
    let mut viewer = Session::new();
    viewer.connect(&mut hub);
    sampler.tick(&mut hub);
    match viewer.poll(&mut hub) {
        Step::Send(snapshot) => assert_eq!(snapshot.len(), listed),
        other => panic!("viewer got {:?}", other),
    }
}
