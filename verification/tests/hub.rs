use cpu_broadcast::hub::{Delivery, Feed, Hub};
use cpu_broadcast::snapshot::Snapshot;

fn reading(values: &[u32]) -> Snapshot {
    Snapshot::new(values.to_vec())
}

fn taken(hub: &mut Hub, feed: &Feed) -> Option<Vec<u32>> {
    match hub.take(feed) {
        Delivery::Snapshot(snapshot) => Some(snapshot.into_cores()),
        Delivery::Pending => None,
        Delivery::Closed => panic!("feed is at end of stream"),
    }
}

#[test]
fn new_hub_is_open() {
    let hub = Hub::new();
    assert!(!hub.is_closed());
}

#[test]
fn publish_reaches_every_feed() {
    let mut hub = Hub::new();
    let feeds: Vec<Feed> = (0..5).map(|_| hub.subscribe()).collect();
    hub.publish(reading(&[10, 20, 30]));
    for feed in &feeds {
        assert_eq!(taken(&mut hub, feed), Some(vec![10, 20, 30]));
    }
}

#[test]
fn publish_without_feeds_is_accepted() {
    let mut hub = Hub::new();
    hub.publish(reading(&[1]));
    hub.publish(reading(&[2]));
    assert!(!hub.is_closed());
}

#[test]
fn subscriber_sees_nothing_published_before() {
    let mut hub = Hub::new();
    hub.publish(reading(&[1, 1]));
    let feed = hub.subscribe();
    assert_eq!(taken(&mut hub, &feed), None);
    hub.publish(reading(&[2, 2]));
    assert_eq!(taken(&mut hub, &feed), Some(vec![2, 2]));
}

#[test]
fn newest_replaces_unread() {
    let mut hub = Hub::new();
    let feed = hub.subscribe();
    hub.publish(reading(&[7]));
    hub.publish(reading(&[8]));
    assert_eq!(taken(&mut hub, &feed), Some(vec![8]));
    assert_eq!(taken(&mut hub, &feed), None);
}

#[test]
fn a_snapshot_is_handed_out_once() {
    let mut hub = Hub::new();
    let feed = hub.subscribe();
    hub.publish(reading(&[3, 4]));
    assert_eq!(taken(&mut hub, &feed), Some(vec![3, 4]));
    assert_eq!(taken(&mut hub, &feed), None);
    assert_eq!(taken(&mut hub, &feed), None);
}

#[test]
fn snapshots_come_in_publish_order() {
    let mut hub = Hub::new();
    let eager = hub.subscribe();
    let lazy = hub.subscribe();
    let mut seen_by_eager: Vec<u32> = Vec::new();
    let mut seen_by_lazy: Vec<u32> = Vec::new();
    for round in 1..=9u32 {
        hub.publish(reading(&[round]));
        if let Some(cores) = taken(&mut hub, &eager) {
            seen_by_eager.push(cores[0]);
        }
        if round % 3 == 0 {
            if let Some(cores) = taken(&mut hub, &lazy) {
                seen_by_lazy.push(cores[0]);
            }
        }
    }
    assert_eq!(seen_by_eager, vec![1, 2, 3, 4, 5, 6, 7, 8, 9]);
    assert_eq!(seen_by_lazy, vec![3, 6, 9]);
}

#[test]
fn feeds_do_not_disturb_each_other() {
    let mut hub = Hub::new();
    let first = hub.subscribe();
    let second = hub.subscribe();
    hub.publish(reading(&[5]));
    assert_eq!(taken(&mut hub, &first), Some(vec![5]));
    assert_eq!(taken(&mut hub, &second), Some(vec![5]));
    hub.publish(reading(&[6]));
    hub.release(first);
    assert_eq!(taken(&mut hub, &second), Some(vec![6]));
}

#[test]
fn released_feed_is_no_longer_live() {
    let mut hub = Hub::new();
    let keep = hub.subscribe();
    let gone = hub.subscribe();
    assert!(hub.is_live(&keep));
    assert!(hub.is_live(&gone));
    hub.release(gone);
    assert!(hub.is_live(&keep));
    hub.publish(reading(&[1]));
    assert_eq!(taken(&mut hub, &keep), Some(vec![1]));
}

#[test]
fn a_freed_slot_carries_nothing_over() {
    let mut hub = Hub::new();
    let first = hub.subscribe();
    hub.publish(reading(&[41]));
    hub.release(first);
    let second = hub.subscribe();
    assert!(hub.is_live(&second));
    assert_eq!(taken(&mut hub, &second), None);
    hub.publish(reading(&[42]));
    assert_eq!(taken(&mut hub, &second), Some(vec![42]));
}

#[test]
fn close_ends_every_feed() {
    let mut hub = Hub::new();
    let first = hub.subscribe();
    let second = hub.subscribe();
    hub.publish(reading(&[9]));
    hub.close();
    assert!(hub.is_closed());
    assert!(!hub.is_live(&first));
    assert!(matches!(hub.take(&first), Delivery::Closed));
    assert!(matches!(hub.take(&second), Delivery::Closed));
}

#[test]
fn closed_hub_registers_nothing() {
    let mut hub = Hub::new();
    hub.close();
    let late = hub.subscribe();
    assert!(!hub.is_live(&late));
    hub.publish(reading(&[1]));
    assert!(matches!(hub.take(&late), Delivery::Closed));
}

#[test]
fn many_feeds_come_and_go() {
    let mut hub = Hub::new();
    let mut feeds: Vec<Feed> = Vec::new();
    for _ in 0..50 {
        feeds.push(hub.subscribe());
    }
    hub.publish(reading(&[1, 2, 3, 4]));
    let mut kept: Vec<Feed> = Vec::new();
    for (at, feed) in feeds.into_iter().enumerate() {
        if at % 2 == 0 {
            hub.release(feed);
        } else {
            kept.push(feed);
        }
    }
    for _ in 0..10 {
        kept.push(hub.subscribe());
    }
    hub.publish(reading(&[5, 6, 7, 8]));
    for feed in &kept {
        assert_eq!(taken(&mut hub, feed), Some(vec![5, 6, 7, 8]));
        assert_eq!(taken(&mut hub, feed), None);
    }
}
