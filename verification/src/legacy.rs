//! The single-feature power predictor, the cost model and the regional
//! price tables.

use vstd::prelude::*;
use crate::fixed::{
    add_values, apply_weight, clamp, divide_trunc, lemma_product_bounds, multiply, product, sat,
    saturate, trunc_div, weighted,
};
use crate::stats::{fit_line, ols_intercept, ols_slope, r_squared, score};

verus! {

/// Joules in one kilowatt-hour, as a fixed-point value.
pub const JOULES_PER_KWH: i64 = 3_600_000_000_000;

/// A line fitted to observations of one variable, with the share of the
/// variance that it explains.
#[derive(Debug, Clone, Copy, PartialEq, Eq)]
pub struct LinearPredictor {
    intercept: i64,
    slope: i64,
    r2: i64,
}

/// The state of a linear predictor: intercept (a value), slope (a weight)
/// and coefficient of determination (a value).
pub struct LinearModel {
    pub intercept: i64,
    pub slope: i64,
    pub r2: i64,
}

impl View for LinearPredictor {
    type V = LinearModel;

    closed spec fn view(&self) -> LinearModel {
        LinearModel { intercept: self.intercept, slope: self.slope, r2: self.r2 }
    }
}

/// What a line predicts at `x`, before any limit other than the range of a
/// value.
pub open spec fn line_at(intercept: int, slope: int, x: int) -> int {
    sat(intercept + weighted(slope, x))
}

/// What a line predicts at each of `xs`.
pub open spec fn line_outputs(intercept: int, slope: int, xs: Seq<i64>) -> Seq<i64> {
    Seq::new(xs.len(), |i: int| line_at(intercept, slope, xs[i] as int) as i64)
}

/// The least-squares line through the points `(xs[i], ys[i])` and its
/// coefficient of determination on those points.
pub open spec fn fitted_line(xs: Seq<i64>, ys: Seq<i64>) -> LinearModel {
    let slope = ols_slope(xs, ys);
    let intercept = ols_intercept(xs, ys);
    LinearModel {
        intercept: intercept as i64,
        slope: slope as i64,
        r2: r_squared(ys, line_outputs(intercept, slope, xs)) as i64,
    }
}

/// The text of the error that `fit` returns.
pub open spec fn invalid_input() -> Seq<char> {
    "Invalid input"@
}

impl LinearPredictor {
    /// The line that is zero everywhere.
    pub fn new() -> (r: Self)
        ensures
            r@ == (LinearModel { intercept: 0, slope: 0, r2: 0 }),
    {
        LinearPredictor { intercept: 0, slope: 0, r2: 0 }
    }

    /// Fits the line to the points `(x[i], y[i])` by least squares. Fails,
    /// leaving the line as it is, where `x` is empty or the lengths differ.
    pub fn fit(&mut self, x: &[i64], y: &[i64]) -> (r: Result<(), String>)
        ensures
            r is Err <==> (x@.len() != y@.len() || x@.len() == 0),
            r is Ok ==> final(self)@ == fitted_line(x@, y@),
            r matches Err(e) ==> e@ == invalid_input() && final(self)@ == old(self)@,
    {
        if x.len() != y.len() || x.len() == 0 {
            return Err("Invalid input".to_owned());
        }
        let (slope, intercept) = fit_line(x, y);
        let n: usize = x.len();
        let mut outputs: Vec<i64> = Vec::new();
        let mut i: usize = 0;
        while i < n
            invariant
                n == x@.len(),
                i <= n,
                outputs@ =~= line_outputs(intercept as int, slope as int, x@).take(i as int),
            decreases n - i,
        {
            outputs.push(add_values(intercept, apply_weight(slope, x[i])));
            i = i + 1;
        }
        assert(outputs@ =~= line_outputs(intercept as int, slope as int, x@));
        self.slope = slope;
        self.intercept = intercept;
        self.r2 = score(y, outputs.as_slice());
        Ok(())
    }

    /// What the line predicts at `x`, limited to the non-negative values.
    pub fn predict(&self, x: i64) -> (r: i64)
        ensures
            r == clamp(
                self@.intercept + weighted(self@.slope as int, x as int),
                0,
                i64::MAX as int,
            ),
    {
        let raw: i128 = self.intercept as i128 + apply_weight(self.slope, x) as i128;
        if raw < 0 {
            0
        } else {
            saturate(raw)
        }
    }

    /// The coefficient of determination of the last fit.
    pub fn r2_score(&self) -> (r: i64)
        ensures
            r == self@.r2,
    {
        self.r2
    }
}

/// What energy and machine time cost.
#[derive(Debug, Clone, Copy, PartialEq, Eq)]
pub struct CostModel {
    /// Price of one kilowatt-hour.
    pub energy_cost_per_kwh: i64,
    /// Price of one hour of machine time.
    pub cpu_cost_per_hour: i64,
}

/// The price of `energy_joules` at `rate` per kilowatt-hour.
pub open spec fn energy_cost(rate: int, energy_joules: int) -> int {
    sat(trunc_div(energy_joules * rate, JOULES_PER_KWH as int))
}

impl CostModel {
    /// A cost model with the given prices.
    pub fn new(energy_cost_per_kwh: i64, cpu_cost_per_hour: i64) -> (r: Self)
        ensures
            r.energy_cost_per_kwh == energy_cost_per_kwh,
            r.cpu_cost_per_hour == cpu_cost_per_hour,
    {
        CostModel { energy_cost_per_kwh, cpu_cost_per_hour }
    }

    /// The price of `energy_joules` of energy.
    pub fn compute_energy_cost(&self, energy_joules: i64) -> (r: i64)
        ensures
            r == energy_cost(self.energy_cost_per_kwh as int, energy_joules as int),
    {
        proof {
            lemma_product_bounds(energy_joules, self.energy_cost_per_kwh);
        }
        let wide: i128 = energy_joules as i128 * self.energy_cost_per_kwh as i128;
        saturate(divide_trunc(wide, JOULES_PER_KWH as i128))
    }

    /// The price of `energy_joules` of energy and `duration_hours` of machine
    /// time together.
    pub fn compute_total_cost(&self, energy_joules: i64, duration_hours: i64) -> (r: i64)
        ensures
            r == sat(
                energy_cost(self.energy_cost_per_kwh as int, energy_joules as int) + product(
                    duration_hours as int,
                    self.cpu_cost_per_hour as int,
                ),
            ),
    {
        let energy: i64 = self.compute_energy_cost(energy_joules);
        let compute: i64 = multiply(duration_hours, self.cpu_cost_per_hour);
        add_values(energy, compute)
    }
}

/// Whether two texts are the same.
pub fn same_text(a: &str, b: &str) -> (r: bool)
    ensures
        r == (a@ == b@),
{
    let left: String = a.to_owned();
    let right: String = b.to_owned();
    left == right
}

/// Electricity price, carbon intensity and currency of one region.
#[derive(Debug, Clone, PartialEq, Eq)]
pub struct RegionalPricing {
    /// Name of the region.
    pub region: String,
    /// Price of one kilowatt-hour in the region's currency.
    pub electricity_price: i64,
    /// Kilograms of CO2 emitted per kilowatt-hour.
    pub carbon_intensity: i64,
    /// Code of the region's currency.
    pub currency: String,
}

/// Electricity price of a region; 0.12 for one that is not listed.
pub open spec fn regional_price(region: Seq<char>) -> int {
    if region == "us-east-1"@ {
        130_000
    } else if region == "us-west-2"@ {
        100_000
    } else if region == "eu-west-1"@ {
        1_850_000
    } else if region == "eu-north-1"@ {
        740_000
    } else if region == "eu-central-1"@ {
        180_000
    } else if region == "eu-south-1"@ {
        220_000
    } else {
        120_000
    }
}

/// Carbon intensity of a region; 0.5 for one that is not listed.
pub open spec fn regional_intensity(region: Seq<char>) -> int {
    if region == "us-east-1"@ {
        450_000
    } else if region == "us-west-2"@ {
        300_000
    } else if region == "eu-west-1"@ {
        280_000
    } else if region == "eu-north-1"@ {
        120_000
    } else if region == "eu-central-1"@ {
        400_000
    } else if region == "eu-south-1"@ {
        350_000
    } else {
        500_000
    }
}

/// Currency of a region; USD for one that is not listed.
pub open spec fn regional_currency(region: Seq<char>) -> Seq<char> {
    if region == "us-east-1"@ || region == "us-west-2"@ {
        "USD"@
    } else if region == "eu-west-1"@ || region == "eu-north-1"@ {
        "SEK"@
    } else if region == "eu-central-1"@ || region == "eu-south-1"@ {
        "EUR"@
    } else {
        "USD"@
    }
}

/// What one unit of currency `from` is worth in currency `to`; 1 for a pair
/// that is not listed.
pub open spec fn exchange_rate(from: Seq<char>, to: Seq<char>) -> int {
    if from == "USD"@ && to == "EUR"@ {
        920_000
    } else if from == "USD"@ && to == "SEK"@ {
        10_500_000
    } else if from == "EUR"@ && to == "USD"@ {
        1_090_000
    } else if from == "EUR"@ && to == "SEK"@ {
        11_400_000
    } else if from == "SEK"@ && to == "USD"@ {
        95_000
    } else if from == "SEK"@ && to == "EUR"@ {
        88_000
    } else {
        1_000_000
    }
}

impl RegionalPricing {
    /// The prices of `region`.
    pub fn new(region: &str) -> (r: Self)
        ensures
            r.region@ == region@,
            r.electricity_price == regional_price(region@),
            r.carbon_intensity == regional_intensity(region@),
            r.currency@ == regional_currency(region@),
    {
        let (electricity_price, carbon_intensity, currency): (i64, i64, &str) = if same_text(
            region,
            "us-east-1",
        ) {
            (130_000, 450_000, "USD")
        } else if same_text(region, "us-west-2") {
            (100_000, 300_000, "USD")
        } else if same_text(region, "eu-west-1") {
            (1_850_000, 280_000, "SEK")
        } else if same_text(region, "eu-north-1") {
            (740_000, 120_000, "SEK")
        } else if same_text(region, "eu-central-1") {
            (180_000, 400_000, "EUR")
        } else if same_text(region, "eu-south-1") {
            (220_000, 350_000, "EUR")
        } else {
            (120_000, 500_000, "USD")
        };
        RegionalPricing {
            region: region.to_owned(),
            electricity_price,
            carbon_intensity,
            currency: currency.to_owned(),
        }
    }

    /// Kilograms of CO2 emitted for `energy_kwh` of energy.
    pub fn compute_co2_emissions(&self, energy_kwh: i64) -> (r: i64)
        ensures
            r == product(energy_kwh as int, self.carbon_intensity as int),
    {
        multiply(energy_kwh, self.carbon_intensity)
    }

    /// `amount` of the region's currency in `to_currency`.
    pub fn convert_currency(&self, amount: i64, to_currency: &str) -> (r: i64)
        ensures
            r == product(amount as int, exchange_rate(self.currency@, to_currency@)),
    {
        let from: &str = self.currency.as_str();
        let rate: i64 = if same_text(from, "USD") && same_text(to_currency, "EUR") {
            920_000
        } else if same_text(from, "USD") && same_text(to_currency, "SEK") {
            10_500_000
        } else if same_text(from, "EUR") && same_text(to_currency, "USD") {
            1_090_000
        } else if same_text(from, "EUR") && same_text(to_currency, "SEK") {
            11_400_000
        } else if same_text(from, "SEK") && same_text(to_currency, "USD") {
            95_000
        } else if same_text(from, "SEK") && same_text(to_currency, "EUR") {
            88_000
        } else {
            1_000_000
        };
        multiply(amount, rate)
    }
}

} // verus!
