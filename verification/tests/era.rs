use akropolis_runtime::era::Era;

#[test]
fn mortal_keeps_a_power_of_two_period() {
    assert_eq!(Era::mortal(128, 1000), Era::Mortal(128, 104));
}

#[test]
fn mortal_rounds_the_period_up() {
    assert_eq!(Era::mortal(100, 1000), Era::Mortal(128, 104));
    assert_eq!(Era::mortal(5000, 12345), Era::Mortal(8192, 4152));
}

#[test]
fn mortal_period_is_at_least_four() {
    assert_eq!(Era::mortal(0, 5), Era::Mortal(4, 1));
    assert_eq!(Era::mortal(3, 7), Era::Mortal(4, 3));
}

#[test]
fn mortal_period_is_at_most_65536() {
    assert_eq!(Era::mortal(100_000, 70_000), Era::Mortal(65536, 4464));
    assert_eq!(Era::mortal(u64::MAX, 10), Era::Mortal(65536, 0));
}

#[test]
fn birth_and_death_of_a_mortal_era() {
    let era = Era::Mortal(128, 104);
    assert_eq!(era.birth(1000), 1000);
    assert_eq!(era.death(1000), 1128);
    assert_eq!(era.birth(1127), 1000);
    assert_eq!(era.birth(1128), 1128);
    assert_eq!(era.birth(50), 104);
}

#[test]
fn birth_and_death_of_an_immortal_era() {
    assert_eq!(Era::Immortal.birth(1000), 0);
    assert_eq!(Era::Immortal.death(1000), u64::MAX);
}

#[test]
fn mortal_era_is_alive_where_it_is_made() {
    for current in [0u64, 1, 3, 127, 128, 1000, 4_000_000] {
        for period in [0u64, 4, 64, 128, 250, 5000, 65536, 1 << 40] {
            let era = Era::mortal(period, current);
            assert!(era.birth(current) <= current);
            assert!(current < era.death(current));
        }
    }
}
