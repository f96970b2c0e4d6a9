use cpu_broadcast::snapshot::Snapshot;

fn from_percentages(values: &[f32]) -> Snapshot {
    Snapshot::new(values.iter().map(|value| value.to_bits()).collect())
}

fn to_percentages(snapshot: &Snapshot) -> Vec<f32> {
    snapshot.cores().iter().map(|bits| f32::from_bits(*bits)).collect()
}

#[test]
fn snapshot_keeps_values_and_order() {
    let snapshot = Snapshot::new(vec![3, 1, 2]);
    assert_eq!(snapshot.len(), 3);
    assert!(!snapshot.is_empty());
    assert_eq!(snapshot.usage_bits(0), Some(3));
    assert_eq!(snapshot.usage_bits(1), Some(1));
    assert_eq!(snapshot.usage_bits(2), Some(2));
    assert_eq!(snapshot.usage_bits(3), None);
    assert_eq!(snapshot.cores(), &vec![3, 1, 2]);
    assert_eq!(snapshot.into_cores(), vec![3, 1, 2]);
}

#[test]
fn empty_snapshot() {
    let snapshot = Snapshot::new(Vec::new());
    assert_eq!(snapshot.len(), 0);
    assert!(snapshot.is_empty());
    assert_eq!(snapshot.usage_bits(0), None);
}

#[test]
fn clone_is_equal_and_independent() {
    let snapshot = Snapshot::new(vec![9, 8, 7]);
    let copy = snapshot.clone();
    assert_eq!(copy, snapshot);
    assert_eq!(copy.into_cores(), vec![9, 8, 7]);
    assert_eq!(snapshot.len(), 3);
}

#[test]
fn equality_goes_by_values_in_order() {
    assert!(Snapshot::new(vec![1, 2]).same_as(&Snapshot::new(vec![1, 2])));
    assert!(!Snapshot::new(vec![1, 2]).same_as(&Snapshot::new(vec![2, 1])));
    assert!(!Snapshot::new(vec![1, 2]).same_as(&Snapshot::new(vec![1])));
    assert!(!Snapshot::new(vec![1]).same_as(&Snapshot::new(vec![1, 2])));
    assert_eq!(Snapshot::new(Vec::new()), Snapshot::new(Vec::new()));
    assert_ne!(Snapshot::new(vec![1, 2]), Snapshot::new(vec![1, 3]));
}

#[test]
fn percentages_pass_through_unchanged() {
    let values = [0.0f32, 12.5, 100.0, 100.00001, 45.2];
    let snapshot = from_percentages(&values);
    assert_eq!(to_percentages(&snapshot), values.to_vec());
    assert_eq!(snapshot.usage_bits(1), Some(0x4148_0000));
}

#[test]
fn wire_text_round_trip() {
    let snapshot = from_percentages(&[1.0, 2.0, 3.0]);
    let text = serde_json::to_string(&to_percentages(&snapshot)).unwrap();
    assert_eq!(text, "[1.0,2.0,3.0]");
    let back: Vec<f32> = serde_json::from_str(&text).unwrap();
    assert_eq!(back.len(), 3);
    assert_eq!(from_percentages(&back), snapshot);
}
