use emu_host::edges::{diff, EdgeDetector, KeyEvent};
use emu_host::keys::Key;
use emu_host::snapshot::KeySnapshot;

fn snapshot_of(keys: &[Key]) -> KeySnapshot {
    KeySnapshot::from_keys(&keys.to_vec())
}

fn events_for(detector: &mut EdgeDetector, keys: &[Key]) -> Vec<KeyEvent> {
    detector.observe(Some(snapshot_of(keys))).events()
}

#[test]
fn first_snapshot_reports_every_held_key_down() {
    let mut detector = EdgeDetector::new();
    let edges = detector.observe(Some(snapshot_of(&[Key::A, Key::B])));
    assert_eq!(edges.newly_down, vec![Key::A, Key::B]);
    assert!(edges.newly_up.is_empty());
}

#[test]
fn first_snapshot_reports_the_same_keys_in_either_polling_order() {
    let mut detector = EdgeDetector::new();
    let edges = detector.observe(Some(snapshot_of(&[Key::B, Key::A])));
    assert_eq!(edges.newly_down.len(), 2);
    assert!(edges.newly_down.contains(&Key::A));
    assert!(edges.newly_down.contains(&Key::B));
    assert!(edges.newly_up.is_empty());
    assert_eq!(edges.events(), vec![KeyEvent::Down(Key::B), KeyEvent::Down(Key::A)]);
}

#[test]
fn key_sequence_produces_the_expected_event_stream() {
    let mut detector = EdgeDetector::new();
    assert_eq!(events_for(&mut detector, &[Key::A]), vec![KeyEvent::Down(Key::A)]);
    assert_eq!(events_for(&mut detector, &[Key::A, Key::B]), vec![KeyEvent::Down(Key::B)]);
    assert_eq!(events_for(&mut detector, &[Key::B]), vec![KeyEvent::Up(Key::A)]);
    assert_eq!(events_for(&mut detector, &[]), vec![KeyEvent::Up(Key::B)]);
}

#[test]
fn unchanged_snapshot_reports_nothing() {
    let mut detector = EdgeDetector::new();
    events_for(&mut detector, &[Key::X, Key::Y]);
    assert!(events_for(&mut detector, &[Key::Y, Key::X]).is_empty());
}

#[test]
fn missing_poll_reports_nothing_and_keeps_the_previous_snapshot() {
    let mut detector = EdgeDetector::new();
    events_for(&mut detector, &[Key::A]);
    let edges = detector.observe(None);
    assert!(edges.newly_down.is_empty());
    assert!(edges.newly_up.is_empty());
    assert!(edges.events().is_empty());
    assert_eq!(detector.previous().keys(), &vec![Key::A]);
    assert_eq!(events_for(&mut detector, &[Key::A, Key::B]), vec![KeyEvent::Down(Key::B)]);
}

#[test]
fn observed_snapshot_becomes_the_previous_one() {
    let mut detector = EdgeDetector::new();
    assert!(detector.previous().keys().is_empty());
    events_for(&mut detector, &[Key::Left, Key::Up]);
    assert_eq!(detector.previous().keys(), &vec![Key::Left, Key::Up]);
}

#[test]
fn swap_of_keys_reports_downs_before_ups() {
    let mut detector = EdgeDetector::new();
    events_for(&mut detector, &[Key::A, Key::B]);
    assert_eq!(
        events_for(&mut detector, &[Key::C, Key::D]),
        vec![
            KeyEvent::Down(Key::C),
            KeyEvent::Down(Key::D),
            KeyEvent::Up(Key::A),
            KeyEvent::Up(Key::B),
        ]
    );
}

#[test]
fn diff_reports_the_two_set_differences() {
    let current = snapshot_of(&[Key::A, Key::B, Key::C]);
    let previous = snapshot_of(&[Key::C, Key::D]);
    let edges = diff(&current, &previous);
    assert_eq!(edges.newly_down, vec![Key::A, Key::B]);
    assert_eq!(edges.newly_up, vec![Key::D]);
}

#[test]
fn diff_never_reports_a_key_both_ways() {
    let pool = [Key::A, Key::B, Key::C, Key::D];
    for current_bits in 0..16u32 {
        for previous_bits in 0..16u32 {
            let pick = |bits: u32| -> Vec<Key> {
                (0..4).filter(|i| bits & (1 << i) != 0).map(|i| pool[i as usize]).collect()
            };
            let current = KeySnapshot::from_keys(&pick(current_bits));
            let previous = KeySnapshot::from_keys(&pick(previous_bits));
            let edges = diff(&current, &previous);
            for key in &edges.newly_down {
                assert!(!edges.newly_up.contains(key));
                assert!(current.contains(*key) && !previous.contains(*key));
            }
            for key in &edges.newly_up {
                assert!(previous.contains(*key) && !current.contains(*key));
            }
            for key in pool {
                let went_down = current.contains(key) && !previous.contains(key);
                let went_up = previous.contains(key) && !current.contains(key);
                assert_eq!(edges.newly_down.iter().filter(|k| **k == key).count(), went_down as usize);
                assert_eq!(edges.newly_up.iter().filter(|k| **k == key).count(), went_up as usize);
            }
        }
    }
}

#[test]
fn a_key_is_held_exactly_when_its_event_count_is_odd() {
    let polls: Vec<Vec<Key>> = vec![
        vec![Key::A],
        vec![Key::A, Key::B],
        vec![Key::B],
        vec![],
        vec![Key::B, Key::C],
        vec![Key::A, Key::C],
    ];
    let mut detector = EdgeDetector::new();
    let mut counts = [0usize; 3];
    let watched = [Key::A, Key::B, Key::C];
    for poll in &polls {
        for event in events_for(&mut detector, poll) {
            let key = match event {
                KeyEvent::Down(key) => key,
                KeyEvent::Up(key) => key,
            };
            let slot = watched.iter().position(|k| *k == key).unwrap();
            counts[slot] += 1;
        }
        for (slot, key) in watched.iter().enumerate() {
            assert_eq!(poll.contains(key), counts[slot] % 2 == 1);
        }
    }
    assert_eq!(counts, [3, 4, 1]);
}

#[test]
fn replaying_the_events_rebuilds_each_snapshot() {
    let polls: Vec<Vec<Key>> =
        vec![vec![Key::Q, Key::W], vec![Key::W, Key::E], vec![Key::E, Key::Q, Key::R], vec![]];
    let mut detector = EdgeDetector::new();
    let mut held: Vec<Key> = Vec::new();
    for poll in &polls {
        for event in events_for(&mut detector, poll) {
            match event {
                KeyEvent::Down(key) => {
                    assert!(!held.contains(&key));
                    held.push(key);
                }
                KeyEvent::Up(key) => {
                    assert!(held.contains(&key));
                    held.retain(|k| *k != key);
                }
            }
        }
        assert_eq!(held.len(), poll.len());
        for key in poll {
            assert!(held.contains(key));
        }
    }
}
