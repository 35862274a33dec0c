use minijam::euc::Euc32;

#[test]
fn sevens() {
    println!();
    for i in 0..=7 {
        let x = Euc32::new(i, 7).unwrap();
        println!("{}: {}", i, x.stringify());
    }
}

#[test]
fn thirteens() {
    println!();
    for i in 0..=13 {
        let x = Euc32::new(i, 13).unwrap();
        println!("{:02}: {}", i, x.stringify());
    }
}

#[test]
fn equiv() {
    for interval in 1..=32 {
        for hits in 1..=interval {
            let mut ctr = 0u32;

            while ctr < interval {
                ctr += hits;
            }

            let ctr_math = hits * (((interval - 1) / hits) + 1);
            assert_eq!(ctr, ctr_math);
        }
    }
}

#[test]
fn population_count_is_hits() {
    for interval in 1..=32u32 {
        for hits in 0..=interval {
            let e = Euc32::new(hits, interval).unwrap();
            assert_eq!(e.data().count_ones(), hits);
            assert_eq!(e.interval(), interval);
            if interval < 32 {
                assert_eq!(e.data() >> interval, 0);
            }
        }
    }
}

#[test]
fn refused_patterns() {
    assert!(Euc32::new(0, 0).is_none());
    assert!(Euc32::new(1, 0).is_none());
    assert!(Euc32::new(5, 4).is_none());
    assert!(Euc32::new(1, 33).is_none());
    assert!(Euc32::new(33, 33).is_none());
    assert!(Euc32::new(40, 32).is_none());
    assert!(Euc32::new(32, 32).is_some());
    assert!(Euc32::new(0, 1).is_some());
}

#[test]
fn stringify_exact_patterns() {
    assert_eq!(Euc32::new(3, 8).unwrap().stringify(), "[x..x.x..]");
    assert_eq!(Euc32::new(0, 4).unwrap().stringify(), "[....]");
    assert_eq!(Euc32::new(4, 4).unwrap().stringify(), "[xxxx]");
    assert_eq!(Euc32::new(1, 3).unwrap().stringify(), "[x..]");
    assert_eq!(Euc32::new(2, 4).unwrap().stringify(), "[x.x.]");
    assert_eq!(Euc32::new(3, 8).unwrap().data(), 0b0010_1001);
}

#[test]
fn matches_the_counter_run() {
    for interval in 1..=32u32 {
        for hits in 1..=interval {
            let mut ctr = hits * (((interval - 1) / hits) + 1);
            let mut data = 0u32;
            for i in 0..interval {
                if ctr >= interval {
                    data |= 1 << i;
                    ctr -= interval;
                }
                ctr += hits;
            }
            assert_eq!(Euc32::new(hits, interval).unwrap().data(), data);
        }
    }
}

#[test]
fn cycler_goes_round() {
    let e = Euc32::new(3, 8).unwrap();
    let mut walk = e.cycler();
    let mut seen = Vec::new();
    for _ in 0..20 {
        seen.push(walk.next());
    }
    let one = [true, false, false, true, false, true, false, false];
    for (i, hit) in seen.iter().enumerate() {
        assert_eq!(*hit, one[i % 8]);
        assert_eq!(*hit, e.data() & (1 << (i % 8)) != 0);
    }
}
