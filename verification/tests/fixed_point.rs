use macos_resource_monitor::fixed_point::Milli;
use macos_resource_monitor::text::push_decimal;

fn m(thousandths: u128) -> Milli {
    Milli { thousandths }
}

#[test]
fn percentage_of_a_part() {
    assert_eq!(Milli::percentage(1, 4), m(25_000));
    assert_eq!(Milli::percentage(450, 600), m(75_000));
    assert_eq!(Milli::percentage(0, 9), m(0));
    assert_eq!(Milli::percentage(9, 9), m(100_000));
}

#[test]
fn percentage_rounds_down() {
    assert_eq!(Milli::percentage(1, 3), m(33_333));
    assert_eq!(Milli::percentage(2, 3), m(66_666));
}

#[test]
fn percentage_of_nothing_is_zero() {
    assert_eq!(Milli::percentage(5, 0), m(0));
    assert_eq!(Milli::percentage(0, 0), m(0));
}

#[test]
fn percentage_may_pass_one_hundred() {
    assert_eq!(Milli::percentage(3, 2), m(150_000));
    assert_eq!(Milli::percentage(u64::MAX, 1), m(u64::MAX as u128 * 100_000));
}

#[test]
fn mean_of_core_loads() {
    assert_eq!(Milli::mean(&vec![m(10_000), m(20_000), m(60_000)]), m(30_000));
    assert_eq!(Milli::mean(&vec![m(42)]), m(42));
}

#[test]
fn mean_rounds_down() {
    assert_eq!(Milli::mean(&vec![m(1), m(2)]), m(1));
    assert_eq!(Milli::mean(&vec![m(1), m(1), m(2)]), m(1));
    assert_eq!(Milli::mean(&vec![m(3), m(3), m(5)]), m(3));
}

#[test]
fn mean_of_nothing_is_zero() {
    assert_eq!(Milli::mean(&Vec::new()), m(0));
}

#[test]
fn mean_of_values_whose_sum_does_not_fit() {
    assert_eq!(Milli::mean(&vec![m(u128::MAX), m(u128::MAX)]), m(u128::MAX));
    assert_eq!(Milli::mean(&vec![m(u128::MAX), m(u128::MAX - 2)]), m(u128::MAX - 1));
    assert_eq!(Milli::mean(&vec![m(u128::MAX), m(0), m(2)]), m(u128::MAX / 3));
    assert_eq!(Milli::mean(&vec![m(u128::MAX), m(1), m(2)]), m(u128::MAX / 3 + 1));
}

#[test]
fn one_decimal_of_whole_numbers() {
    assert_eq!(m(80_000).to_one_decimal(), "80.0");
    assert_eq!(m(0).to_one_decimal(), "0.0");
    assert_eq!(m(1_000_000_000).to_one_decimal(), "1000000.0");
}

#[test]
fn one_decimal_rounds_to_the_nearest_tenth() {
    assert_eq!(m(12_345).to_one_decimal(), "12.3");
    assert_eq!(m(12_351).to_one_decimal(), "12.4");
    assert_eq!(m(49).to_one_decimal(), "0.0");
    assert_eq!(m(51).to_one_decimal(), "0.1");
    assert_eq!(m(99_949).to_one_decimal(), "99.9");
    assert_eq!(m(99_951).to_one_decimal(), "100.0");
}

#[test]
fn one_decimal_rounds_halves_to_the_even_tenth() {
    assert_eq!(m(50).to_one_decimal(), "0.0");
    assert_eq!(m(150).to_one_decimal(), "0.2");
    assert_eq!(m(250).to_one_decimal(), "0.2");
    assert_eq!(m(12_250).to_one_decimal(), "12.2");
    assert_eq!(m(12_350).to_one_decimal(), "12.4");
    assert_eq!(m(99_950).to_one_decimal(), "100.0");
}

#[test]
fn one_decimal_of_the_largest_quantity() {
    // 340282366920938463463374607431768211.455
    assert_eq!(m(u128::MAX).to_one_decimal(), "340282366920938463463374607431768211.5");
}

#[test]
fn push_one_decimal_appends() {
    let mut text = String::from("load ");
    m(7_040).push_one_decimal(&mut text);
    assert_eq!(text, "load 7.0");
}

#[test]
fn decimal_digits_in_order() {
    let mut text = String::new();
    push_decimal(&mut text, 0);
    push_decimal(&mut text, 9);
    push_decimal(&mut text, 10);
    push_decimal(&mut text, 1234567890);
    assert_eq!(text, "09101234567890");
    let mut largest = String::from("x");
    push_decimal(&mut largest, u128::MAX);
    assert_eq!(largest, format!("x{}", u128::MAX));
}
