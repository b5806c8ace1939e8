use asteroid_core::asteroid::AsteroidType;
use asteroid_core::generator::{AsteroidSizeGenerator, AsteroidTypeGenerator};

#[test]
fn size_draws_stay_in_range() {
    // the stock sampler: sizes 1..=10, rarity 2.1, base probability 0.35
    let g = AsteroidSizeGenerator::new(1, 10, 2100, 350);
    let mut counts = [0u32; 10];
    for _ in 0..100000 {
        let s = g.generate();
        assert!((1..=10).contains(&s));
        counts[(s - 1) as usize] += 1;
    }
    // every mass sits somewhere
    let total: u32 = counts.iter().sum();
    assert_eq!(total, 100000);
    // size 1 is far more common than size 10: the ratio approximates
    // 2.1^9 (about 794); leave generous room for sampling noise
    assert!(counts[0] > 40000);
    let ratio = counts[0] as f64 / (counts[9].max(1)) as f64;
    assert!(ratio > 200.0, "ratio {ratio}");
    assert!(ratio < 3200.0, "ratio {ratio}");
}

#[test]
fn size_bucket_selection_is_first_exceeding() {
    let g = AsteroidSizeGenerator::new(3, 5, 2000, 500);
    // cumulative weights are strictly increasing; roll 0 lands in the
    // first bucket, a roll beyond every weight falls back to the last
    assert_eq!(g.pick_bucket(0), 0);
    assert_eq!(g.pick_bucket(u64::MAX), g.cumulative.len() - 1);
    assert_eq!(g.min_size, 3);
    assert_eq!(g.cumulative.len(), 3);
}

#[test]
fn single_size_generator() {
    let g = AsteroidSizeGenerator::new(7, 7, 2100, 350);
    for _ in 0..100 {
        assert_eq!(g.generate(), 7);
    }
}

#[test]
fn type_roll_boundaries() {
    // weights: normal 600, ice 250, metal 120, crystal 30 (thousandths)
    let g = AsteroidTypeGenerator::new();
    assert_eq!(g.pick_type(0), AsteroidType::Normal);
    assert_eq!(g.pick_type(599), AsteroidType::Normal);
    assert_eq!(g.pick_type(600), AsteroidType::Ice);
    assert_eq!(g.pick_type(849), AsteroidType::Ice);
    assert_eq!(g.pick_type(850), AsteroidType::Metal);
    assert_eq!(g.pick_type(969), AsteroidType::Metal);
    assert_eq!(g.pick_type(970), AsteroidType::Crystal);
    assert_eq!(g.pick_type(999), AsteroidType::Crystal);
    // a roll beyond every bucket falls back to plain rock
    assert_eq!(g.pick_type(1000), AsteroidType::Normal);
}

#[test]
fn type_distribution_sanity() {
    let g = AsteroidTypeGenerator::new();
    let mut normal = 0u32;
    let mut crystal = 0u32;
    for _ in 0..20000 {
        match g.generate() {
            AsteroidType::Normal => normal += 1,
            AsteroidType::Crystal => crystal += 1,
            _ => {}
        }
    }
    // 60% normal vs 3% crystal, with wide noise margins
    assert!(normal > 10000);
    assert!(crystal < 1500);
}

#[test]
fn size_weights_decay_monotonically() {
    // each size carries no more probability mass than the size below it,
    // and the first-to-last mass ratio approximates the rarity factor to
    // the ninth power (2.1^9, about 794)
    let g = AsteroidSizeGenerator::new(1, 10, 2100, 350);
    let mut widths = Vec::new();
    let mut prev = 0u64;
    for &c in &g.cumulative {
        widths.push(c - prev);
        prev = c;
    }
    for i in 1..widths.len() {
        assert!(widths[i] <= widths[i - 1]);
    }
    let ratio = widths[0] as f64 / widths[9] as f64;
    assert!(ratio > 700.0, "ratio {ratio}");
    assert!(ratio < 900.0, "ratio {ratio}");
}
