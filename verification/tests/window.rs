//! The rolling window on chosen streams.

use perptrix::common::window::RollingWindow;

#[test]
fn window_fills_then_evicts_the_oldest() {
    let mut window: RollingWindow<u32> = RollingWindow::new(3);
    assert_eq!(window.capacity(), 3);
    assert!(window.is_empty());
    assert!(!window.is_full());
    assert_eq!(window.last(), None);

    assert_eq!(window.push(1), None);
    assert_eq!(window.push(2), None);
    assert!(!window.is_full());
    assert_eq!(window.push(3), None);
    assert!(window.is_full());
    assert_eq!(window.items(), &vec![1, 2, 3]);

    assert_eq!(window.push(4), Some(1));
    assert_eq!(window.items(), &vec![2, 3, 4]);
    assert_eq!(window.push(5), Some(2));
    assert_eq!(window.items(), &vec![3, 4, 5]);
    assert_eq!(window.len(), 3);
    assert_eq!(window.last(), Some(&5));
    assert!(window.is_full());
    assert!(!window.is_empty());
}

#[test]
fn window_holds_the_most_recent_of_a_stream() {
    for capacity in 0..6usize {
        let mut window: RollingWindow<usize> = RollingWindow::new(capacity);
        for (count, item) in (100..120).enumerate() {
            let evicted = window.push(item);
            let fed = count + 1;
            let expected: Vec<usize> = (100..100 + fed).skip(fed.saturating_sub(capacity)).collect();
            assert_eq!(window.items(), &expected);
            assert_eq!(window.len(), fed.min(capacity));
            if fed > capacity {
                assert_eq!(evicted, Some(100 + fed - capacity - 1));
            } else {
                assert_eq!(evicted, None);
            }
        }
    }
}

#[test]
fn window_of_capacity_zero_keeps_nothing() {
    let mut window: RollingWindow<&str> = RollingWindow::new(0);
    assert!(window.is_full());
    assert_eq!(window.push("a"), Some("a"));
    assert!(window.is_empty());
    assert!(window.is_full());
    assert_eq!(window.last(), None);
}

#[test]
fn window_of_capacity_one_keeps_the_newest() {
    let mut window: RollingWindow<String> = RollingWindow::new(1);
    assert_eq!(window.push("a".to_string()), None);
    assert_eq!(window.push("b".to_string()), Some("a".to_string()));
    assert_eq!(window.last().map(String::as_str), Some("b"));
    let copy = window.clone();
    assert_eq!(copy.items(), window.items());
}
