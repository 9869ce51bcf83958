use ml_rust::fixed::{add_values, apply_weight, divide, divide_to_weight, multiply, saturate, subtract};
use ml_rust::legacy::same_text;
use ml_rust::stats::{fit_line, mean_of, moment_of, score};
use ml_rust::{CostModel, LinearPredictor, RegionalPricing};

const ONE: i64 = 1_000_000;

#[test]
fn fixed_point_operations_round_toward_zero() {
    assert_eq!(multiply(3 * ONE, 1_500_000), 4_500_000);
    assert_eq!(multiply(-3 * ONE, 1_500_000), -4_500_000);
    assert_eq!(multiply(3, 500_000), 1);
    assert_eq!(multiply(-3, 500_000), -1);
    assert_eq!(multiply(1, 999_999), 0);
    assert_eq!(multiply(-1, 999_999), 0);
    assert_eq!(divide(ONE, 3 * ONE), 333_333);
    assert_eq!(divide(-ONE, 3 * ONE), -333_333);
    assert_eq!(divide(2 * ONE, 3 * ONE), 666_666);
    assert_eq!(divide_to_weight(ONE, 3 * ONE), 333_333_333_333);
    assert_eq!(divide_to_weight(-2 * ONE, 3 * ONE), -666_666_666_666);
    assert_eq!(apply_weight(333_333_333_333, 3 * ONE), 999_999);
    assert_eq!(apply_weight(-333_333_333_333, 3 * ONE), -999_999);
}

#[test]
fn fixed_point_operations_saturate() {
    assert_eq!(saturate(i128::MAX), i64::MAX);
    assert_eq!(saturate(i128::MIN), i64::MIN);
    assert_eq!(saturate(i64::MAX as i128 + 1), i64::MAX);
    assert_eq!(saturate(i64::MIN as i128 - 1), i64::MIN);
    assert_eq!(saturate(-42), -42);
    assert_eq!(add_values(i64::MAX, 1), i64::MAX);
    assert_eq!(add_values(i64::MIN, -1), i64::MIN);
    assert_eq!(add_values(2, -5), -3);
    assert_eq!(subtract(i64::MIN, 1), i64::MIN);
    assert_eq!(subtract(i64::MAX, -1), i64::MAX);
    assert_eq!(subtract(0, i64::MIN), i64::MAX);
    assert_eq!(multiply(i64::MAX, i64::MAX), i64::MAX);
    assert_eq!(multiply(i64::MIN, i64::MAX), i64::MIN);
    assert_eq!(multiply(i64::MIN, i64::MIN), i64::MAX);
    assert_eq!(divide(i64::MAX, 1), i64::MAX);
    assert_eq!(divide(i64::MIN, 1), i64::MIN);
    assert_eq!(divide_to_weight(i64::MAX, ONE), i64::MAX);
}

#[test]
fn division_by_a_divisor_that_is_not_positive_is_zero() {
    assert_eq!(divide(5 * ONE, 0), 0);
    assert_eq!(divide(5 * ONE, -ONE), 0);
    assert_eq!(divide_to_weight(5 * ONE, 0), 0);
    assert_eq!(divide_to_weight(-5 * ONE, i64::MIN), 0);
}

#[test]
fn mean_rounds_toward_zero() {
    assert_eq!(mean_of(&[]), 0);
    assert_eq!(mean_of(&[7]), 7);
    assert_eq!(mean_of(&[1, 2]), 1);
    assert_eq!(mean_of(&[-1, -2]), -1);
    assert_eq!(mean_of(&[i64::MAX, i64::MAX, i64::MAX]), i64::MAX);
    assert_eq!(mean_of(&[i64::MIN, i64::MIN]), i64::MIN);
    assert_eq!(mean_of(&[i64::MIN, i64::MAX]), 0);
    assert_eq!(mean_of(&[50_000, 120_000, 300_000]), 156_666);
}

#[test]
fn moment_is_the_mean_product_of_deviations() {
    let xs = [ONE, 2 * ONE, 3 * ONE, 4 * ONE];
    let ys = [2 * ONE, ONE, 4 * ONE, 3 * ONE];
    // Deviations from 2.5: -1.5, -0.5, 0.5, 1.5.
    assert_eq!(moment_of(&xs, &xs, 2_500_000, 2_500_000, 4), 1_250_000);
    assert_eq!(moment_of(&xs, &ys, 2_500_000, 2_500_000, 4), 750_000);
    assert_eq!(moment_of(&xs, &ys, 2_500_000, 2_500_000, 2), 750_000);
    assert_eq!(moment_of(&xs, &ys, 2_500_000, 2_500_000, 0), 0);
    assert_eq!(moment_of(&xs, &ys, 0, 0, 1), 2 * ONE);
}

#[test]
fn line_through_points() {
    let xs = [ONE, 2 * ONE, 3 * ONE, 4 * ONE];
    let ys = [2 * ONE, ONE, 4 * ONE, 3 * ONE];
    assert_eq!(fit_line(&xs, &ys), (600_000_000_000, ONE));
    assert_eq!(fit_line(&[5 * ONE, 5 * ONE], &[ONE, 3 * ONE]), (0, 2 * ONE));
    assert_eq!(fit_line(&[5 * ONE], &[3 * ONE]), (0, 3 * ONE));
    assert_eq!(fit_line(&[], &[]), (0, 0));
    assert_eq!(fit_line(&[0, ONE], &[ONE, 0]), (-1_000_000_000_000, ONE));
}

#[test]
fn score_is_one_less_error_over_spread() {
    let ys = [2 * ONE, ONE, 4 * ONE, 3 * ONE];
    let line = [1_600_000, 2_200_000, 2_800_000, 3_400_000];
    assert_eq!(score(&ys, &line), 360_000);
    assert_eq!(score(&ys, &ys), ONE);
    assert_eq!(score(&ys, &[]), 0);
    assert_eq!(score(&[], &line), 0);
    assert_eq!(score(&[ONE, ONE], &[0, 5 * ONE]), 0);
    assert_eq!(score(&[0, 2 * ONE], &[2 * ONE, 0]), -3 * ONE);
}

#[test]
fn new_predictor_is_the_zero_line() {
    let predictor = LinearPredictor::new();
    assert_eq!(predictor.predict(6 * ONE), 0);
    assert_eq!(predictor.predict(-6 * ONE), 0);
    assert_eq!(predictor.r2_score(), 0);
}

#[test]
fn predictor_fits_an_exact_line_exactly() {
    let mut predictor = LinearPredictor::new();
    let x: Vec<i64> = [1, 2, 3, 4, 5].iter().map(|v| v * ONE).collect();
    let y: Vec<i64> = [50, 75, 100, 125, 150].iter().map(|v| v * ONE).collect();
    assert_eq!(predictor.fit(&x, &y), Ok(()));
    assert_eq!(predictor.r2_score(), ONE);
    assert_eq!(predictor.predict(6 * ONE), 175 * ONE);
    assert_eq!(predictor.predict(0), 25 * ONE);
    assert_eq!(predictor.predict(-ONE), 0);
    assert_eq!(predictor.predict(-10 * ONE), 0);
}

#[test]
fn predictor_scores_a_loose_fit() {
    let mut predictor = LinearPredictor::new();
    let x = [ONE, 2 * ONE, 3 * ONE, 4 * ONE];
    let y = [2 * ONE, ONE, 4 * ONE, 3 * ONE];
    predictor.fit(&x, &y).unwrap();
    assert_eq!(predictor.r2_score(), 360_000);
    assert_eq!(predictor.predict(5 * ONE), 4 * ONE);
    assert_eq!(predictor.predict(-10 * ONE), 0);
}

#[test]
fn predictor_rejects_empty_or_mismatched_input() {
    let mut predictor = LinearPredictor::new();
    predictor.fit(&[ONE, 2 * ONE], &[3 * ONE, 5 * ONE]).unwrap();
    let before = predictor;
    assert_eq!(predictor.fit(&[], &[]), Err("Invalid input".to_string()));
    assert_eq!(predictor.fit(&[ONE], &[]), Err("Invalid input".to_string()));
    assert_eq!(predictor.fit(&[], &[ONE]), Err("Invalid input".to_string()));
    assert_eq!(predictor.fit(&[ONE, ONE], &[ONE]), Err("Invalid input".to_string()));
    assert_eq!(predictor, before);
    assert_eq!(predictor.predict(3 * ONE), 7 * ONE);
}

#[test]
fn predictor_of_constant_input_is_flat() {
    let mut predictor = LinearPredictor::new();
    predictor.fit(&[2 * ONE, 2 * ONE], &[ONE, 3 * ONE]).unwrap();
    assert_eq!(predictor.predict(100 * ONE), 2 * ONE);
    assert_eq!(predictor.r2_score(), 0);
    predictor.fit(&[ONE, 2 * ONE], &[3 * ONE, 3 * ONE]).unwrap();
    assert_eq!(predictor.predict(100 * ONE), 3 * ONE);
    assert_eq!(predictor.r2_score(), 0);
}

#[test]
fn energy_and_machine_time_add_up() {
    let model = CostModel::new(120_000, 500_000);
    assert_eq!(model.energy_cost_per_kwh, 120_000);
    assert_eq!(model.cpu_cost_per_hour, 500_000);
    assert_eq!(model.compute_energy_cost(3_600_000 * ONE), 120_000);
    assert_eq!(model.compute_energy_cost(1_800_000 * ONE), 60_000);
    assert_eq!(model.compute_energy_cost(ONE), 0);
    assert_eq!(model.compute_energy_cost(-3_600_000 * ONE), -120_000);
    assert_eq!(model.compute_total_cost(3_600_000 * ONE, ONE), 620_000);
    assert_eq!(model.compute_total_cost(0, 2_500_000), 1_250_000);
    assert_eq!(model.compute_total_cost(7_200_000 * ONE, 0), 240_000);
    let steep = CostModel::new(i64::MAX, i64::MAX);
    assert_eq!(steep.compute_total_cost(i64::MAX, i64::MAX), i64::MAX);
}

#[test]
fn every_listed_region_has_its_prices() {
    let table = [
        ("us-east-1", 130_000, 450_000, "USD"),
        ("us-west-2", 100_000, 300_000, "USD"),
        ("eu-west-1", 1_850_000, 280_000, "SEK"),
        ("eu-north-1", 740_000, 120_000, "SEK"),
        ("eu-central-1", 180_000, 400_000, "EUR"),
        ("eu-south-1", 220_000, 350_000, "EUR"),
        ("ap-south-1", 120_000, 500_000, "USD"),
        ("", 120_000, 500_000, "USD"),
        ("US-EAST-1", 120_000, 500_000, "USD"),
        ("default", 120_000, 500_000, "USD"),
    ];
    for (region, price, intensity, currency) in table {
        let pricing = RegionalPricing::new(region);
        assert_eq!(pricing.region, region);
        assert_eq!(pricing.electricity_price, price);
        assert_eq!(pricing.carbon_intensity, intensity);
        assert_eq!(pricing.currency, currency);
    }
}

#[test]
fn emissions_scale_with_energy() {
    let pricing = RegionalPricing::new("eu-north-1");
    assert_eq!(pricing.compute_co2_emissions(10 * ONE), 1_200_000);
    assert_eq!(pricing.compute_co2_emissions(0), 0);
    assert_eq!(pricing.compute_co2_emissions(-10 * ONE), -1_200_000);
}

#[test]
fn every_listed_currency_pair_has_its_rate() {
    let usd = RegionalPricing::new("us-east-1");
    let eur = RegionalPricing::new("eu-central-1");
    let sek = RegionalPricing::new("eu-west-1");
    assert_eq!(usd.convert_currency(100 * ONE, "EUR"), 92 * ONE);
    assert_eq!(usd.convert_currency(100 * ONE, "SEK"), 1050 * ONE);
    assert_eq!(usd.convert_currency(100 * ONE, "USD"), 100 * ONE);
    assert_eq!(eur.convert_currency(100 * ONE, "USD"), 109 * ONE);
    assert_eq!(eur.convert_currency(100 * ONE, "SEK"), 1140 * ONE);
    assert_eq!(eur.convert_currency(100 * ONE, "EUR"), 100 * ONE);
    assert_eq!(sek.convert_currency(100 * ONE, "USD"), 9_500_000);
    assert_eq!(sek.convert_currency(100 * ONE, "EUR"), 8_800_000);
    assert_eq!(sek.convert_currency(100 * ONE, "SEK"), 100 * ONE);
    assert_eq!(usd.convert_currency(100 * ONE, "GBP"), 100 * ONE);
    assert_eq!(usd.convert_currency(100 * ONE, ""), 100 * ONE);
    let odd = RegionalPricing {
        region: "x".to_string(),
        electricity_price: 0,
        carbon_intensity: 0,
        currency: "GBP".to_string(),
    };
    assert_eq!(odd.convert_currency(100 * ONE, "USD"), 100 * ONE);
}

#[test]
fn texts_compare_by_content() {
    assert!(same_text("USD", "USD"));
    assert!(same_text("", ""));
    assert!(!same_text("USD", "usd"));
    assert!(!same_text("USD", "USD "));
    assert!(!same_text("", "a"));
}
