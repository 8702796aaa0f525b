use learnrust::exercises::{carol, convert_temp, fibonacci, repeating_line};

#[test]
fn fibonacci_first_terms() {
    assert_eq!(fibonacci(1), Some(0));
    assert_eq!(fibonacci(2), Some(1));
    assert_eq!(fibonacci(3), Some(1));
    assert_eq!(fibonacci(7), Some(8));
}

#[test]
fn fibonacci_below_one_is_zero() {
    assert_eq!(fibonacci(0), Some(0));
    assert_eq!(fibonacci(-4), Some(0));
}

#[test]
fn fibonacci_largest_that_fits() {
    assert_eq!(fibonacci(94), Some(12200160415121876738));
    assert_eq!(fibonacci(95), None);
    assert_eq!(fibonacci(i32::MAX), None);
}

#[test]
fn convert_temp_freezing_and_boiling() {
    assert_eq!(convert_temp(0) as f64 / 5.0, 32.0);
    assert_eq!(convert_temp(100) as f64 / 5.0, 212.0);
}

#[test]
fn convert_temp_in_fifths() {
    assert_eq!(convert_temp(0), 160);
    assert_eq!(convert_temp(-40), -200);
    assert_eq!(convert_temp(1), 169);
    assert_eq!(convert_temp(i32::MIN), 9 * (i32::MIN as i64) + 160);
}

#[test]
fn repeating_line_names_the_day() {
    assert_eq!(
        repeating_line(2),
        "\nOn the second day of Christmas my true love sent to me"
    );
    assert_eq!(repeating_line(9), "\nOn the  day of Christmas my true love sent to me");
}

#[test]
fn carol_whole_text() {
    let expected = "\nOn the first day of Christmas my true love sent to me\n\
A patridge in a pear tree.\n\
\nOn the second day of Christmas my true love sent to me\n\
Tow turtle doves,\nAnd A patridge in a pear tree.\n\
\nOn the third day of Christmas my true love sent to me\n\
Three French hens,\nTow turtle doves,\nAnd A patridge in a pear tree.\n\n";
    assert_eq!(carol(), expected);
}

#[test]
fn carol_third_verse_has_three_gift_lines() {
    let text = carol();
    let third = text.split("day of Christmas my true love sent to me\n").nth(3).unwrap();
    let gifts: Vec<&str> = third.trim_end().lines().collect();
    assert_eq!(gifts.len(), 3);
    assert_eq!(gifts[0], "Three French hens,");
    assert_eq!(gifts[1], "Tow turtle doves,");
    assert_eq!(gifts[2], "And A patridge in a pear tree.");
}
