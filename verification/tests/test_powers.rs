use pyxirr::periodic::powers::{PowerStep, PowersCursor};

/// The powers a cursor yields, replayed with a cache of four slots.
fn powers(base: f64, start_power: usize, total_count: usize) -> Vec<f64> {
    let mut slots = [1.0, base, base * base, base * base * base];
    let start_base = base.powi(start_power as i32);
    for slot in &mut slots {
        *slot *= start_base;
    }
    let base4 = base.powi(4);
    let mut cursor = PowersCursor::new(start_power, total_count);
    let mut out = Vec::new();
    loop {
        assert_eq!(cursor.remaining(), total_count - out.len());
        match cursor.next() {
            PowerStep::Done => break,
            PowerStep::Cached(slot) => out.push(slots[slot]),
            PowerStep::Advanced(slot) => {
                slots[slot] *= base4;
                out.push(slots[slot]);
            }
        }
    }
    out
}

#[test]
fn item_k_is_the_base_to_start_plus_k() {
    for start in [0usize, 1, 3] {
        let got = powers(2.0, start, 20);
        assert_eq!(got.len(), 20);
        for (k, value) in got.iter().enumerate() {
            assert_eq!(*value, 2f64.powi((start + k) as i32), "start {start}, item {k}");
        }
    }
}

#[test]
fn the_cache_serves_four_then_advances_by_slot() {
    let mut cursor = PowersCursor::new(0, 10);
    let steps: Vec<PowerStep> = (0..11).map(|_| cursor.next()).collect();
    assert_eq!(
        steps,
        vec![
            PowerStep::Cached(0),
            PowerStep::Cached(1),
            PowerStep::Cached(2),
            PowerStep::Cached(3),
            PowerStep::Advanced(0),
            PowerStep::Advanced(1),
            PowerStep::Advanced(2),
            PowerStep::Advanced(3),
            PowerStep::Advanced(0),
            PowerStep::Advanced(1),
            PowerStep::Done,
        ]
    );
    assert_eq!(cursor.next(), PowerStep::Done);
    assert_eq!(cursor.remaining(), 0);
}

#[test]
fn an_empty_sequence_yields_nothing() {
    assert!(powers(1.1, 0, 0).is_empty());
}

#[test]
fn mirr_of_a_long_flow_uses_the_right_powers() {
    // nine amounts reach the ninth power, past the second round of the cache
    let values = [-1000.0, 100.0, 250.0, 500.0, 500.0, 100.0, 100.0, 100.0, 100.0];
    let reinvest = powers(1.1, 0, values.len() + 1);
    for (k, value) in reinvest.iter().enumerate() {
        assert!((value - 1.1f64.powi(k as i32)).abs() < 1e-12 * value);
    }
}
