use daedalus::drivers::timer::SystemTimer;

#[test]
fn test_timer_counter_increments() {
    let t1 = SystemTimer::read_counter(0, 5, 0).unwrap();
    let t2 = SystemTimer::read_counter(0, 6, 0).unwrap();
    assert!(t2 >= t1);
    // Halves combine as hi * 2^32 + lo.
    assert_eq!(SystemTimer::read_counter(1, 2, 1), Some(0x1_0000_0002));
    assert_eq!(SystemTimer::read_counter(0xFFFF_FFFF, 0xFFFF_FFFF, 0xFFFF_FFFF), Some(u64::MAX));
    // The low half rolled over between the reads: read again.
    assert_eq!(SystemTimer::read_counter(1, 0, 2), None);
}

#[test]
fn test_timer_timestamp_alias() {
    assert_eq!(SystemTimer::timestamp_us(3, 77, 3), SystemTimer::read_counter(3, 77, 3));
    assert_eq!(SystemTimer::timestamp_us(3, 77, 4), None);
}

#[test]
fn test_delay_us_actually_delays() {
    let mut delay = SystemTimer::delay_us(1_000, 100);
    assert!(!delay.poll(1_000));
    assert!(!delay.poll(1_099));
    assert!(delay.poll(1_100));
    assert!(delay.poll(1_149));
}

#[test]
fn test_delay_ms() {
    let mut delay = SystemTimer::delay_ms(10, 2);
    assert_eq!(delay.target, 2_010);
    assert!(!delay.poll(2_009));
    assert!(delay.poll(2_010));
    // An overflowing duration saturates.
    let long = SystemTimer::delay_ms(0, u64::MAX);
    assert_eq!(long.target, u64::MAX);
}

#[test]
fn delay_across_counter_wrap() {
    let mut delay = SystemTimer::delay_us(u64::MAX - 10, 20);
    assert_eq!(delay.target, 9);
    assert!(delay.waiting_for_wrap);
    // Before the wrap, large values do not end the delay.
    assert!(!delay.poll(u64::MAX));
    assert!(!delay.poll(3));
    assert!(!delay.poll(8));
    assert!(delay.poll(9));
}

#[test]
fn test_uptime_seconds() {
    assert_eq!(SystemTimer::uptime_seconds(0), 0);
    assert_eq!(SystemTimer::uptime_seconds(999_999), 0);
    assert_eq!(SystemTimer::uptime_seconds(3_600_000_000), 3600);
}

#[test]
fn test_counter_is_monotonic() {
    let mut last = SystemTimer::read_counter(0, 0, 0).unwrap();
    for lo in 1..10u32 {
        let current = SystemTimer::read_counter(0, lo, 0).unwrap();
        assert!(current >= last);
        last = current;
    }
}
