use utilix::base64_encoder::Base64Encoder;
use utilix::color_converter::{
    convert_to_hex, convert_to_rgb, parse_color, parse_hex, parse_rgb, Color, ColorConverter,
};
use utilix::date_converter::{format_signed, parse_i64, DateConverter};
use utilix::number_base_converter::{format_radix, parse_radix, NumberBaseConverter};

fn converted(input: &str, from: u32, to: u32) -> String {
    let mut c = NumberBaseConverter::new();
    c.input = input.to_string();
    c.base_from = from;
    c.base_to = to;
    c.convert();
    c.result
}

#[test]
fn number_conversions_between_bases() {
    assert_eq!(converted("255", 10, 2), "11111111");
    assert_eq!(converted("255", 10, 16), "FF");
    assert_eq!(converted("1010", 2, 10), "10");
    assert_eq!(converted("1010", 2, 16), "A");
    assert_eq!(converted("ff", 16, 2), "11111111");
    assert_eq!(converted("FF", 16, 10), "255");
    assert_eq!(converted("0", 10, 2), "0");
    assert_eq!(converted("+5", 10, 2), "101");
}

#[test]
fn number_conversion_errors() {
    assert_eq!(converted("102", 2, 10), "Invalid binary number");
    assert_eq!(converted("-5", 10, 2), "Invalid decimal number");
    assert_eq!(converted("", 10, 16), "Invalid decimal number");
    assert_eq!(converted("+", 10, 16), "Invalid decimal number");
    assert_eq!(converted("xyz", 16, 10), "Invalid hexadecimal number");
    assert_eq!(converted("18446744073709551616", 10, 16), "Invalid decimal number");
    assert_eq!(converted("12", 8, 2), "Unsupported conversion");
}

#[test]
fn number_converter_fills_every_pair() {
    let mut c = NumberBaseConverter::new();
    assert_eq!((c.base_from, c.base_to), (10, 2));
    c.input = "11".to_string();
    c.convert();
    assert_eq!(c.result, "1011");
    assert_eq!(c.binary_to_decimal, "3");
    assert_eq!(c.binary_to_hexadecimal, "3");
    assert_eq!(c.decimal_to_binary, "1011");
    assert_eq!(c.decimal_to_hexadecimal, "B");
    assert_eq!(c.hexadecimal_to_binary, "10001");
    assert_eq!(c.hexadecimal_to_decimal, "17");
}

#[test]
fn radix_reading_and_writing_limits() {
    assert_eq!(parse_radix("18446744073709551615", 10), Some(u64::MAX));
    assert_eq!(format_radix(u64::MAX, 16), "FFFFFFFFFFFFFFFF");
    assert_eq!(parse_radix("zZ", 36), Some(35 * 36 + 35));
    assert_eq!(parse_radix("1 ", 10), None);
    assert_eq!(format_radix(35, 36), "Z");
}

#[test]
fn base64_round_trip() {
    let mut e = Base64Encoder::new();
    e.input = "hello".to_string();
    e.encode();
    assert_eq!(e.encoded, "aGVsbG8=");
    e.input = "aGVsbG8=".to_string();
    e.decode();
    assert_eq!(e.decoded, "hello");
    e.input = String::new();
    e.encode();
    assert_eq!(e.encoded, "");
    e.input = "ab".to_string();
    e.encode();
    assert_eq!(e.encoded, "YWI=");
    e.input = "é".to_string();
    e.encode();
    assert_eq!(e.encoded, "w6k=");
}

#[test]
fn base64_rejects_invalid_text() {
    let mut e = Base64Encoder::new();
    e.input = "!!!".to_string();
    e.decode();
    assert_eq!(e.decoded, "provided input is not a valid base64 string.");
    e.input = "/w==".to_string();
    e.decode();
    assert_eq!(e.decoded, "\u{fffd}");
}

#[test]
fn hex_colour_codes() {
    assert_eq!(parse_hex("#1E90FF"), Some(Color { r: 30, g: 144, b: 255 }));
    assert_eq!(parse_hex("##1e90ff"), Some(Color { r: 30, g: 144, b: 255 }));
    assert_eq!(parse_hex("1E90F"), None);
    assert_eq!(parse_hex("#1E90FG"), None);
    assert_eq!(convert_to_hex(&Color { r: 10, g: 0, b: 255 }), "#0A00FF");
}

#[test]
fn rgb_colour_components() {
    assert_eq!(parse_rgb("30, 144, 255"), Some(Color { r: 30, g: 144, b: 255 }));
    assert_eq!(parse_rgb(" 30 ,144,\t255 "), Some(Color { r: 30, g: 144, b: 255 }));
    assert_eq!(parse_rgb("256,0,0"), None);
    assert_eq!(parse_rgb("1,2"), None);
    assert_eq!(parse_rgb("1,2,3,4"), None);
    assert_eq!(parse_rgb("1,,3"), None);
    assert_eq!(convert_to_rgb(&Color { r: 10, g: 0, b: 255 }), "10, 0, 255");
}

#[test]
fn colour_reading_order() {
    let other = Some(Color { r: 1, g: 2, b: 3 });
    assert_eq!(parse_color("#000000", other), Some(Color { r: 0, g: 0, b: 0 }));
    assert_eq!(parse_color("4,5,6", other), Some(Color { r: 4, g: 5, b: 6 }));
    assert_eq!(parse_color("10%, 0%, 0%, 0%", other), other);
    assert_eq!(parse_color("nothing", None), None);
}

#[test]
fn colour_converter_outputs() {
    let mut c = ColorConverter::new();
    c.input = "#FF8000".to_string();
    c.convert_to_rgb(None);
    c.convert_to_hex(None);
    assert_eq!(c.rgb, "255, 128, 0");
    assert_eq!(c.hex, "#FF8000");
    c.input = "bogus".to_string();
    c.convert_to_rgb(None);
    assert_eq!(c.rgb, "Invalid color format");
}

fn date(input: &str) -> DateConverter {
    let mut d = DateConverter::new();
    d.input = input.to_string();
    d.convert_all();
    d
}

#[test]
fn date_from_timestamp_zero() {
    let d = date("0");
    assert_eq!(d.rfc3339, "1970-01-01T00:00:00+00:00");
    assert_eq!(d.rfc2822, "Thu, 1 Jan 1970 00:00:00 +0000");
    assert_eq!(d.iso8601, "1970-01-01T00:00:00+00:00");
    assert_eq!(d.unix_timestamp, "0");
    assert_eq!(d.human_readable, "Thursday, January 01, 1970, 12:00:00 AM");
    assert_eq!(d.short_date, "01/01/1970");
    assert_eq!(d.time_only, "00:00:00");
}

#[test]
fn date_from_formatted_text() {
    let d = date("2024-03-22 10:00:00");
    assert_eq!(d.unix_timestamp, "1711101600");
    assert_eq!(d.human_readable, "Friday, March 22, 2024, 10:00:00 AM");
    assert_eq!(date("22/03/2024 10:00:00").unix_timestamp, "1711101600");
    assert_eq!(date("2024-03-22").unix_timestamp, "1711065600");
    assert_eq!(date("-1").unix_timestamp, "-1");
    assert_eq!(date("-1").rfc3339, "1969-12-31T23:59:59+00:00");
}

#[test]
fn date_errors_fill_every_field() {
    let d = date("99999999999");
    assert_eq!(d.rfc3339, "Timestamp out of supported range");
    assert_eq!(d.time_only, "Timestamp out of supported range");
    let d = date("hello");
    assert_eq!(d.unix_timestamp, "Unrecognized date-time format");
    assert_eq!(d.short_date, "Unrecognized date-time format");
}

#[test]
fn signed_numbers() {
    assert_eq!(parse_i64("-9223372036854775808"), Some(i64::MIN));
    assert_eq!(parse_i64("9223372036854775808"), None);
    assert_eq!(parse_i64("-+1"), None);
    assert_eq!(parse_i64("-"), None);
    assert_eq!(format_signed(i64::MIN), "-9223372036854775808");
    assert_eq!(format_signed(42), "42");
}
