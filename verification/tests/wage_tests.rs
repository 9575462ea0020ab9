use wageman::wage::{Conversion, Prefix, Unit, WageIter};

/// Collect the full cross-product table for a wage, the way a consumer
/// does: normalize to the hourly base rate, then multiply the base rate by
/// each cell's hour coefficient.
fn table(value: f64, prefix: Prefix, unit: Unit) -> Vec<(Unit, Prefix, f64)> {
    let base = value / prefix.to_hours(unit) as f64;
    let mut out = Vec::new();
    let mut it = WageIter::new();
    while let Some(c) = it.next() {
        out.push((c.unit, c.prefix, base * c.hours as f64));
    }
    out
}

#[test]
fn hour_coefficients() {
    assert_eq!(Prefix::Hour.to_hours(Unit::Hour4), 1);
    assert_eq!(Prefix::Hour.to_hours(Unit::Hour6), 1);
    assert_eq!(Prefix::Hour.to_hours(Unit::Hour8), 1);
    assert_eq!(Prefix::Day.to_hours(Unit::Hour4), 4);
    assert_eq!(Prefix::Day.to_hours(Unit::Hour6), 6);
    assert_eq!(Prefix::Day.to_hours(Unit::Hour8), 8);
    assert_eq!(Prefix::Month.to_hours(Unit::Hour4), 120);
    assert_eq!(Prefix::Month.to_hours(Unit::Hour6), 180);
    assert_eq!(Prefix::Month.to_hours(Unit::Hour8), 240);
}

#[test]
fn scale_invariants() {
    for unit in [Unit::Hour4, Unit::Hour6, Unit::Hour8] {
        assert_eq!(Prefix::Hour.to_hours(unit), 1);
        assert_eq!(Prefix::Day.to_hours(unit), unit.value());
        assert_eq!(Prefix::Month.to_hours(unit), unit.value() * 30);
    }
}

#[test]
fn unit_values() {
    assert_eq!(Unit::Hour4.value(), 4);
    assert_eq!(Unit::Hour6.value(), 6);
    assert_eq!(Unit::Hour8.value(), 8);
}

#[test]
fn labels() {
    assert_eq!(Prefix::Hour.label(), "Hour");
    assert_eq!(Prefix::Day.label(), "Day");
    assert_eq!(Prefix::Month.label(), "Month");
    assert_eq!(Unit::Hour4.label(), "4 hours");
    assert_eq!(Unit::Hour6.label(), "6 hours");
    assert_eq!(Unit::Hour8.label(), "8 hours");
}

#[test]
fn table_of_hourly_wage() {
    let t = table(32.0, Prefix::Hour, Unit::Hour4);
    let expected = vec![
        (Unit::Hour4, Prefix::Hour, 32.0),
        (Unit::Hour4, Prefix::Day, 128.0),
        (Unit::Hour4, Prefix::Month, 3840.0),
        (Unit::Hour6, Prefix::Hour, 32.0),
        (Unit::Hour6, Prefix::Day, 192.0),
        (Unit::Hour6, Prefix::Month, 5760.0),
        (Unit::Hour8, Prefix::Hour, 32.0),
        (Unit::Hour8, Prefix::Day, 256.0),
        (Unit::Hour8, Prefix::Month, 7680.0),
    ];
    assert_eq!(t, expected);
}

#[test]
fn table_of_daily_wage() {
    let t = table(160.0, Prefix::Day, Unit::Hour8);
    assert_eq!(t[1], (Unit::Hour4, Prefix::Day, 80.0));
    assert_eq!(t[8], (Unit::Hour8, Prefix::Month, 4800.0));
    assert_eq!(t[0], (Unit::Hour4, Prefix::Hour, 20.0));
}

#[test]
fn table_of_zero_wage() {
    let t = table(0.0, Prefix::Month, Unit::Hour6);
    assert_eq!(t.len(), 9);
    for (_, _, v) in t {
        assert_eq!(v, 0.0);
    }
}

#[test]
fn table_of_negative_wage() {
    let t = table(-10.0, Prefix::Hour, Unit::Hour4);
    assert_eq!(t[0].2, -10.0);
    assert_eq!(t[1].2, -40.0);
    assert_eq!(t[2].2, -1200.0);
    assert_eq!(t[7].2, -80.0);
    assert_eq!(t[8].2, -2400.0);
}

#[test]
fn table_completeness() {
    let t = table(7.25, Prefix::Day, Unit::Hour6);
    assert_eq!(t.len(), 9);
    for unit in [Unit::Hour4, Unit::Hour6, Unit::Hour8] {
        for prefix in [Prefix::Hour, Prefix::Day, Prefix::Month] {
            let hits = t.iter().filter(|(u, p, _)| *u == unit && *p == prefix).count();
            assert_eq!(hits, 1);
        }
    }
}

#[test]
fn enumeration_order() {
    let t = table(1.0, Prefix::Hour, Unit::Hour4);
    let pairs: Vec<(Unit, Prefix)> = t.iter().map(|(u, p, _)| (*u, *p)).collect();
    assert_eq!(
        pairs,
        vec![
            (Unit::Hour4, Prefix::Hour),
            (Unit::Hour4, Prefix::Day),
            (Unit::Hour4, Prefix::Month),
            (Unit::Hour6, Prefix::Hour),
            (Unit::Hour6, Prefix::Day),
            (Unit::Hour6, Prefix::Month),
            (Unit::Hour8, Prefix::Hour),
            (Unit::Hour8, Prefix::Day),
            (Unit::Hour8, Prefix::Month),
        ]
    );
}

#[test]
fn determinism() {
    let a = table(1234.567, Prefix::Month, Unit::Hour8);
    let b = table(1234.567, Prefix::Month, Unit::Hour8);
    assert_eq!(a.len(), b.len());
    for ((ua, pa, va), (ub, pb, vb)) in a.iter().zip(b.iter()) {
        assert_eq!((ua, pa), (ub, pb));
        assert_eq!(va.to_bits(), vb.to_bits());
    }
}

#[test]
fn round_trip() {
    for prefix in [Prefix::Hour, Prefix::Day, Prefix::Month] {
        for unit in [Unit::Hour4, Unit::Hour6, Unit::Hour8] {
            for v in [32.0_f64, 160.0, 0.0, -10.0, 123.456, 1e-3] {
                let hours = prefix.to_hours(unit) as f64;
                let base = v / hours;
                let back = base * hours;
                let err = (back - v).abs();
                assert!(err <= 1e-9 * v.abs().max(1.0), "{back} vs {v}");
            }
        }
    }
}

#[test]
fn exhaustion_is_terminal() {
    let mut it = WageIter::new();
    let mut n = 0;
    while it.next().is_some() {
        n += 1;
    }
    assert_eq!(n, 9);
    assert!(it.next().is_none());
    assert!(it.next().is_none());
    assert!(it.next().is_none());
}

#[test]
fn restartable_table() {
    let mut it = WageIter::new();
    let first: Conversion = it.next().unwrap();
    it.next();
    it.next();
    it.next();
    let mut fresh = WageIter::new();
    let again = fresh.next().unwrap();
    assert_eq!(first, again);
    assert_eq!(first.unit, Unit::Hour4);
    assert_eq!(first.prefix, Prefix::Hour);
    assert_eq!(first.hours, 1);
}
