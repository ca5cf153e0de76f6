use rustwebapp::badge::{count_digits, render, render_svg, to_decimal};
use rustwebapp::get_rust_version;

#[test]
fn decimal_formatting() {
    assert_eq!(to_decimal(0), "0");
    assert_eq!(to_decimal(7), "7");
    assert_eq!(to_decimal(10), "10");
    assert_eq!(to_decimal(42), "42");
    assert_eq!(to_decimal(12345), "12345");
    assert_eq!(to_decimal(9999999999), "9999999999");
    assert_eq!(to_decimal(u64::MAX), "18446744073709551615");
}

#[test]
fn digit_counting() {
    assert_eq!(count_digits(0), 1);
    assert_eq!(count_digits(9), 1);
    assert_eq!(count_digits(10), 2);
    assert_eq!(count_digits(99), 2);
    assert_eq!(count_digits(100), 3);
    assert_eq!(count_digits(u64::MAX), 20);
}

#[test]
fn width_formula_zero() {
    let d = render(0);
    assert_eq!(d.count_text, "0");
    assert_eq!(d.value_width, 18);
    assert_eq!(d.total_width, 78);
}

#[test]
fn width_formula_five_digits() {
    let d = render(12345);
    assert_eq!(d.value_width, 50);
    assert_eq!(d.total_width, 110);
}

#[test]
fn anchor_formula_single_digit() {
    let d = render(7);
    assert_eq!(d.value_width, 18);
    assert_eq!(d.text_anchor, 690);
    assert_eq!(d.text_length, 80);
}

#[test]
fn boundary_ten_digits() {
    let d = render(9999999999);
    assert_eq!(d.value_width, 90);
    assert_eq!(d.total_width, 150);
    assert!(d.text_length <= d.value_width * 10);
}

#[test]
fn render_is_deterministic() {
    let first = render_svg(42);
    let second = render_svg(42);
    assert_eq!(first, second);
    assert_eq!(first.as_bytes(), second.as_bytes());
}

#[test]
fn repeated_renders_share_no_state() {
    let a = render(42);
    let b = render(42);
    assert_eq!(a.count, b.count);
    assert_eq!(a.count_text, b.count_text);
    assert_eq!(a.value_width, b.value_width);
    assert_eq!(a.total_width, b.total_width);
    assert_eq!(a.text_anchor, b.text_anchor);
    assert_eq!(a.text_length, b.text_length);
    assert_eq!(a.svg(), b.svg());
}

#[test]
fn svg_exact_bytes_for_count_one() {
    let expected = r##"<svg xmlns="http://www.w3.org/2000/svg" width="78" height="20" role="img">
            <title>Visitas: 1</title>
            <linearGradient id="s" x2="0" y2="100%"><stop offset="0" stop-color="#bbb" stop-opacity=".1"/><stop offset="1" stop-opacity=".1"/></linearGradient>
            <clipPath id="r"><rect width="78" height="20" rx="3" fill="#fff"/></clipPath>
            <g clip-path="url(#r)">
                <rect width="60" height="20" fill="#555"/><rect x="60" width="18" height="20" fill="#00a8e8"/><rect width="78" height="20" fill="url(#s)"/>
            </g>
            <g fill="#fff" text-anchor="middle" font-family="Verdana,Geneva,sans-serif" font-size="110">
                <text x="300" y="150" fill="#010101" fill-opacity=".3" transform="scale(.1)" textLength="500">Visitas</text>
                <text x="300" y="140" transform="scale(.1)" textLength="500">Visitas</text>
                <text x="690" y="150" fill="#010101" fill-opacity=".3" transform="scale(.1)" textLength="80">1</text>
                <text x="690" y="140" transform="scale(.1)" textLength="80">1</text>
            </g>
        </svg>"##;
    assert_eq!(render_svg(1), expected);
}

#[test]
fn svg_embeds_count_and_widths() {
    let s = render_svg(12345);
    assert!(s.contains("width=\"110\""));
    assert!(s.contains("width=\"50\""));
    assert!(s.contains(">12345</text>"));
    assert!(s.contains("<title>Visitas: 12345</title>"));
}

#[test]
fn toolchain_label_is_fixed() {
    assert!(!get_rust_version().is_empty());
    assert_eq!(get_rust_version(), get_rust_version());
}
