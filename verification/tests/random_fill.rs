use four_in_a_row::fill::random_fill;
use four_in_a_row::rng::{RandomSource, FIXED_SEED};

#[test]
fn random_fill_leaves_no_empty_cell_and_reports_an_outcome() {
    let mut rng = RandomSource::with_fixed_seed();
    let text = random_fill(&mut rng).render();
    assert!(!text.contains('⬛'));
    assert!(text.ends_with("wins!\n") || text.ends_with("No winner.\n"));
}

#[test]
fn reseeding_makes_random_fills_reproducible() {
    let mut rng = RandomSource::with_fixed_seed();
    let first = random_fill(&mut rng).render();
    rng.reseed();
    let second = random_fill(&mut rng).render();
    rng.reseed();
    let third = random_fill(&mut rng).render();
    assert_eq!(first, second);
    assert_eq!(second, third);
}

#[test]
fn a_fresh_source_matches_a_reseeded_one() {
    let mut fresh = RandomSource::with_seed(FIXED_SEED);
    let mut reseeded = RandomSource::with_seed(7);
    reseeded.reseed();
    assert_eq!(random_fill(&mut fresh).render(), random_fill(&mut reseeded).render());
}

#[test]
fn different_seeds_give_different_draw_sequences() {
    let mut a = RandomSource::with_seed(1);
    let mut b = RandomSource::with_seed(2);
    let mut differs = false;
    for _ in 0..64 {
        if a.next_bool() != b.next_bool() {
            differs = true;
        }
    }
    assert!(differs);
}

#[test]
fn consecutive_fills_advance_the_sequence() {
    // Two fills from one source read different parts of the seed's sequence;
    // a source reseeded in between repeats the first board instead.
    let mut rng = RandomSource::with_fixed_seed();
    let first = random_fill(&mut rng).render();
    let second = random_fill(&mut rng).render();
    let mut again = RandomSource::with_fixed_seed();
    let repeat = random_fill(&mut again).render();
    assert_eq!(first, repeat);
    assert_ne!(first, second);
}
