use minivec::MiniVec;

#[test]
fn capacity_follows_doubling_schedule() {
    let mut vector = MiniVec::<u32>::new();
    assert_eq!(vector.capacity(), 0);

    let expected_capacities: [usize; 9] = [2, 2, 4, 4, 8, 8, 8, 8, 16];
    for (i, expected) in expected_capacities.iter().enumerate() {
        vector.push(i as u32);
        assert_eq!(vector.size(), i + 1);
        assert_eq!(vector.capacity(), *expected);
    }
}

#[test]
fn push_places_element_at_last_index() {
    let mut vector = MiniVec::new();

    vector.push(7);
    assert_eq!(*vector.get(vector.size() - 1), 7);

    vector.push(11);
    assert_eq!(*vector.get(vector.size() - 1), 11);

    vector.push(13);
    assert_eq!(*vector.get(vector.size() - 1), 13);
}

#[test]
fn remove_shifts_and_keeps_capacity() {
    let mut vector = MiniVec::new();

    vector.push(10);
    vector.push(20);
    vector.push(30);
    vector.push(40);
    vector.push(50);
    assert_eq!(vector.capacity(), 8);

    assert_eq!(vector.remove(1), 20);
    assert_eq!(vector.size(), 4);
    assert_eq!(vector.capacity(), 8);
    assert_eq!(*vector.get(0), 10);
    assert_eq!(*vector.get(1), 30);
    assert_eq!(*vector.get(2), 40);
    assert_eq!(*vector.get(3), 50);
}

#[test]
fn push_remove_round_trip() {
    let mut vector = MiniVec::new();

    vector.push(1);
    vector.push(2);
    let size_before = vector.size();

    vector.push(99);
    assert_eq!(vector.remove(vector.size() - 1), 99);

    assert_eq!(vector.size(), size_before);
    assert_eq!(*vector.get(0), 1);
    assert_eq!(*vector.get(1), 2);
}

#[test]
fn push_remove_scenario() {
    let mut vector = MiniVec::new();

    vector.push(1);
    vector.push(2);
    vector.push(3);
    assert_eq!(vector.size(), 3);
    assert_eq!(vector.capacity(), 4);

    assert_eq!(vector.remove(0), 1);
    assert_eq!(vector.size(), 2);
    assert_eq!(*vector.get(0), 2);
    assert_eq!(*vector.get(1), 3);

    assert_eq!(vector.remove(1), 3);
    assert_eq!(vector.size(), 1);

    assert_eq!(vector.remove(0), 2);
    assert_eq!(vector.size(), 0);
}

#[test]
fn set_readback_scenario() {
    let mut vector = MiniVec::<i32>::new();

    vector.push(0);
    vector.push(1);
    vector.push(2);
    vector.push(3);

    vector.set(0, 200);
    vector.set(3, 120);
    vector.set(2, 90);

    assert_eq!(*vector.get(0), 200);
    assert_eq!(*vector.get(1), 1);
    assert_eq!(*vector.get(2), 90);
    assert_eq!(*vector.get(3), 120);
    assert_eq!(vector.size(), 4);
    assert_eq!(vector.capacity(), 4);
}

#[test]
fn stress_sequential_pushes() {
    let mut vector = MiniVec::<usize>::new();

    for i in 0..1000 {
        vector.push(i);
    }

    assert_eq!(vector.size(), 1000);
    assert_eq!(vector.capacity(), 1024);
    for i in 0..1000 {
        assert_eq!(*vector.get(i), i);
    }
}

#[test]
fn get_does_not_change_size_or_capacity() {
    let mut vector = MiniVec::new();

    vector.push(5);
    vector.push(6);
    vector.push(7);

    let _ = *vector.get(1);
    let _ = *vector.get(2);
    assert_eq!(vector.size(), 3);
    assert_eq!(vector.capacity(), 4);
}
