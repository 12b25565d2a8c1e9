use guessing_game::game::{GameState, GuessOutcome};
use guessing_game::prize::PRIZE_SCALE;

/// The prize as the floating-point number the server reports: the exact
/// scaled value over the fixed denominator.
fn prize_f64(scaled: u64) -> f64 {
    scaled as f64 / PRIZE_SCALE as f64
}

#[test]
fn secret_in_range_on_start() {
    let mut g = GameState::new_game();
    assert!(1 <= g.secret() && g.secret() <= 100);
    for _ in 0..200 {
        g.start_game();
        assert!(1 <= g.secret() && g.secret() <= 100);
    }
}

#[test]
fn start_resets_prize_to_one() {
    let mut g = GameState::with_secret(50);
    for _ in 0..5 {
        g.make_guess(1);
    }
    assert!(prize_f64(g.prize_scaled_value()) < 1.0);
    let m = g.start_game();
    assert_eq!(m, "Game started! Guess a number between 1 and 100.");
    assert_eq!(prize_f64(g.prize_scaled_value()), 1.0);
    assert_eq!(g.prize_scaled_value(), PRIZE_SCALE);
}

#[test]
fn decay_matches_halving_with_floor() {
    let mut g = GameState::with_secret(100);
    let mut expected: f64 = 1.0;
    for _ in 0..30 {
        let out = g.make_guess(1);
        assert_eq!(out, GuessOutcome::TooLow);
        expected = (expected / 2.0).max(0.0001);
        assert_eq!(prize_f64(g.prize_scaled_value()), expected);
    }
}

#[test]
fn prize_never_below_floor() {
    let mut g = GameState::with_secret(7);
    for _ in 0..100 {
        g.make_guess(8);
        assert!(prize_f64(g.prize_scaled_value()) >= 0.0001);
    }
    assert_eq!(prize_f64(g.prize_scaled_value()), 0.0001);
}

#[test]
fn correct_guess_leaves_prize_unchanged() {
    let mut g = GameState::with_secret(33);
    g.make_guess(10);
    g.make_guess(60);
    let before = g.prize_scaled_value();
    let out = g.make_guess(33);
    assert_eq!(out, GuessOutcome::Correct);
    assert_eq!(g.prize_scaled_value(), before);
}

#[test]
fn comparison_messages() {
    let mut g = GameState::with_secret(50);
    assert_eq!(g.make_guess(30).message(), "Too low! Try again.");
    assert_eq!(g.make_guess(70).message(), "Too high! Try again.");
    assert_eq!(g.make_guess(50).message(), "🎉 Correct! You won!");
}

#[test]
fn end_to_end_scenario() {
    let mut g = GameState::with_secret(42);
    assert_eq!(prize_f64(g.prize_scaled_value()), 1.0);

    let out = g.make_guess(10);
    assert_eq!(out, GuessOutcome::TooLow);
    assert_eq!(out.message(), "Too low! Try again.");
    assert_eq!(prize_f64(g.prize_scaled_value()), 0.5);

    let out = g.make_guess(90);
    assert_eq!(out, GuessOutcome::TooHigh);
    assert_eq!(out.message(), "Too high! Try again.");
    assert_eq!(prize_f64(g.prize_scaled_value()), 0.25);

    let out = g.make_guess(42);
    assert_eq!(out, GuessOutcome::Correct);
    assert_eq!(out.message(), "🎉 Correct! You won!");
    assert_eq!(prize_f64(g.prize_scaled_value()), 0.25);
}

#[test]
fn out_of_range_guesses_are_compared_normally() {
    let mut g = GameState::with_secret(1);
    assert_eq!(g.make_guess(-5), GuessOutcome::TooLow);
    assert_eq!(g.make_guess(1000), GuessOutcome::TooHigh);
    assert_eq!(prize_f64(g.prize_scaled_value()), 0.25);
    assert_eq!(g.make_guess(1), GuessOutcome::Correct);
}

#[test]
fn post_win_guesses_still_evaluated() {
    let mut g = GameState::with_secret(42);
    assert_eq!(g.make_guess(42), GuessOutcome::Correct);
    let won_prize = g.prize_scaled_value();
    assert_eq!(g.make_guess(42), GuessOutcome::Correct);
    assert_eq!(g.prize_scaled_value(), won_prize);
    assert_eq!(g.make_guess(41), GuessOutcome::TooLow);
    assert_eq!(prize_f64(g.prize_scaled_value()), 0.5);
}

#[test]
fn secret_survives_guesses() {
    let mut g = GameState::with_secret(77);
    g.make_guess(1);
    g.make_guess(100);
    g.make_guess(77);
    assert_eq!(g.secret(), 77);
}
