use magic_eight_ball::generator::AnswerGenerator;
use magic_eight_ball::generator::CycleRandom;
use magic_eight_ball::generator::EnumeratedRandomGenerator;
use magic_eight_ball::generator::FixedAnswerGenerator;
use magic_eight_ball::generator::SystemRandom;
use magic_eight_ball::generator::pick_index;

#[test]
fn byte_buckets_split_the_range_evenly() {
    assert_eq!(pick_index(0, 4), 0);
    assert_eq!(pick_index(63, 4), 0);
    assert_eq!(pick_index(64, 4), 1);
    assert_eq!(pick_index(127, 4), 1);
    assert_eq!(pick_index(128, 4), 2);
    assert_eq!(pick_index(191, 4), 2);
    assert_eq!(pick_index(192, 4), 3);
    assert_eq!(pick_index(255, 4), 3);
    assert_eq!(pick_index(255, 1), 0);
    assert_eq!(pick_index(255, 256), 255);
}

#[test]
fn scripted_bytes_select_each_candidate_in_turn() {
    let rng = CycleRandom::new(vec![0, 64, 128, 192]);
    let mut generator = EnumeratedRandomGenerator::with_standard_answers(rng);
    assert_eq!(generator.generate(None).unwrap(), "Ask again later.");
    assert_eq!(generator.generate(None).unwrap(), "Absolutely!");
    assert_eq!(generator.generate(None).unwrap(), "Unlikely");
    assert_eq!(generator.generate(None).unwrap(), "Simply put, no");
}

#[test]
fn draws_are_close_to_uniform_over_many_trials() {
    let mut generator = EnumeratedRandomGenerator::with_standard_answers(SystemRandom);
    let trials: u32 = 20000;
    let mut counts: [u32; 4] = [0, 0, 0, 0];
    for _ in 0..trials {
        let answer = generator.generate(None).unwrap();
        let slot: usize = match answer.as_str() {
            "Ask again later." => 0,
            "Absolutely!" => 1,
            "Unlikely" => 2,
            "Simply put, no" => 3,
            other => panic!("unexpected answer {other}"),
        };
        counts[slot] += 1;
    }
    // each candidate should land near a quarter of the draws; 1500 of 20000
    // is a wide tolerance (about nine standard deviations)
    for &count in counts.iter() {
        assert!(count > 3500 && count < 6500, "counts were {counts:?}");
    }
}

#[test]
fn fixed_generator_always_returns_its_answer() {
    let mut generator = FixedAnswerGenerator::new("Absolutely!".to_string());
    assert_eq!(generator.generate(Some("Will it rain?")).unwrap(), "Absolutely!");
    assert_eq!(generator.generate(None).unwrap(), "Absolutely!");
}
