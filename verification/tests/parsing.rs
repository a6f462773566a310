use hotel_client::components::date_input::DateInput;
use hotel_client::date::{string_to_date, Date};
use hotel_client::model::guest::GuestDto;
use hotel_client::model::id_card::{IdCard, IdCardDto};
use hotel_client::text::{byte_length, parse_i16, parse_price};

#[test]
fn byte_length_counts_the_encoding() {
    assert_eq!(byte_length(""), 0);
    assert_eq!(byte_length("abc"), 3);
    assert_eq!(byte_length("é"), 2);
    assert_eq!(byte_length("日本"), 6);
}

#[test]
fn parse_i16_reads_decimal_numbers() {
    assert_eq!(parse_i16("0"), Some(0));
    assert_eq!(parse_i16("3"), Some(3));
    assert_eq!(parse_i16("007"), Some(7));
    assert_eq!(parse_i16("+12"), Some(12));
    assert_eq!(parse_i16("-12"), Some(-12));
    assert_eq!(parse_i16("32767"), Some(32767));
    assert_eq!(parse_i16("-32768"), Some(-32768));
}

#[test]
fn parse_i16_refuses_what_is_no_number() {
    assert_eq!(parse_i16(""), None);
    assert_eq!(parse_i16("+"), None);
    assert_eq!(parse_i16("-"), None);
    assert_eq!(parse_i16("32768"), None);
    assert_eq!(parse_i16("-32769"), None);
    assert_eq!(parse_i16("99999999999999999999999"), None);
    assert_eq!(parse_i16("1 "), None);
    assert_eq!(parse_i16(" 1"), None);
    assert_eq!(parse_i16("1.0"), None);
    assert_eq!(parse_i16("１"), None);
    assert_eq!(parse_i16("--1"), None);
}

#[test]
fn parse_i16_agrees_with_the_standard_parser() {
    for text in ["", "0", "5", "-5", "+5", "32767", "32768", "-32768", "-32769", "a", "1a", "٣"] {
        assert_eq!(parse_i16(text), text.parse::<i16>().ok(), "{text:?}");
    }
}

#[test]
fn parse_price_gives_minor_units() {
    assert_eq!(parse_price("12.50"), Some(1250));
    assert_eq!(parse_price("12.5"), Some(1250));
    assert_eq!(parse_price("12"), Some(1200));
    assert_eq!(parse_price("12."), Some(1200));
    assert_eq!(parse_price(".5"), Some(50));
    assert_eq!(parse_price(".05"), Some(5));
    assert_eq!(parse_price("0.29"), Some(29));
    assert_eq!(parse_price("0"), Some(0));
    assert_eq!(parse_price("100000.00"), Some(10_000_000));
    assert_eq!(parse_price("999999999"), Some(99_999_999_900));
}

#[test]
fn parse_price_refuses_what_is_no_price() {
    assert_eq!(parse_price(""), None);
    assert_eq!(parse_price("."), None);
    assert_eq!(parse_price("1.234"), None);
    assert_eq!(parse_price("1.2.3"), None);
    assert_eq!(parse_price("-1"), None);
    assert_eq!(parse_price("+1"), None);
    assert_eq!(parse_price("1e3"), None);
    assert_eq!(parse_price("abc"), None);
    assert_eq!(parse_price("٣"), None);
    assert_eq!(parse_price("99999999999999999999"), None);
}

#[test]
fn date_order() {
    let early = Date::from_ymd(2024, 12, 31);
    let late = Date::from_ymd(2025, 1, 1);
    assert!(late.after(&early));
    assert!(!early.after(&late));
    assert!(!early.after(&early));
    assert!(Date::from_ymd(2025, 3, 1).after(&Date::from_ymd(2025, 2, 28)));
    assert!(Date::from_ymd(2025, 3, 2).after(&Date::from_ymd(2025, 3, 1)));
    assert!(!Date::from_ymd(2025, 3, 1).after(&Date::from_ymd(2025, 3, 2)));
}

#[test]
fn date_text_is_padded() {
    assert_eq!(Date::from_ymd(2030, 1, 1).to_text(), "2030-01-01");
    assert_eq!(Date::from_ymd(987, 11, 23).to_text(), "0987-11-23");
}

#[test]
fn date_text_grows_with_the_numbers_and_counts_the_sign() {
    assert_eq!(Date::from_ymd(0, 0, 0).to_text(), "0000-00-00");
    assert_eq!(Date::from_ymd(7, 1, 2).to_text(), "0007-01-02");
    assert_eq!(Date::from_ymd(12345, 123, 4567).to_text(), "12345-123-4567");
    assert_eq!(Date::from_ymd(-5, 1, 2).to_text(), "-005-01-02");
    assert_eq!(Date::from_ymd(-123, 10, 20).to_text(), "-123-10-20");
    assert_eq!(Date::from_ymd(-1234, 10, 20).to_text(), "-1234-10-20");
    assert_eq!(
        Date::from_ymd(i32::MIN, u32::MAX, u32::MAX).to_text(),
        "-2147483648-4294967295-4294967295"
    );
    assert_eq!(Date::from_ymd(i32::MAX, 9, 99).to_text(), "2147483647-09-99");
}

#[test]
fn numbers_are_written_in_decimal() {
    assert_eq!(hotel_client::text::nat_to_string(0), "0");
    assert_eq!(hotel_client::text::nat_to_string(9), "9");
    assert_eq!(hotel_client::text::nat_to_string(10), "10");
    assert_eq!(hotel_client::text::nat_to_string(u64::MAX), "18446744073709551615");
    assert_eq!(hotel_client::text::i16_to_string(0), "0");
    assert_eq!(hotel_client::text::i16_to_string(-1), "-1");
    assert_eq!(hotel_client::text::i16_to_string(i16::MIN), "-32768");
    assert_eq!(hotel_client::text::i16_to_string(i16::MAX), "32767");
    for value in [-32768i16, -100, -9, 0, 5, 10, 99, 12345] {
        assert_eq!(hotel_client::text::i16_to_string(value), value.to_string());
    }
}

#[test]
fn date_default_is_fixed() {
    assert_eq!(Date::default(), Date::from_ymd(2024, 1, 1));
}

#[test]
fn today_is_a_calendar_date() {
    let today = Date::today();
    assert!(today.year >= 2024);
    assert!((1..=12).contains(&today.month));
    assert!((1..=31).contains(&today.day));
}

#[test]
fn string_to_date_reads_three_parts() {
    assert_eq!(string_to_date("2030-01-01"), Date::from_ymd(2030, 1, 1));
    assert_eq!(string_to_date("1999-12-31"), Date::from_ymd(1999, 12, 31));
    assert_eq!(string_to_date("5-6-7"), Date::from_ymd(5, 6, 7));
    assert_eq!(string_to_date("+5-+6-+7"), Date::from_ymd(5, 6, 7));
}

#[test]
fn string_to_date_counts_a_bad_part_as_zero() {
    assert_eq!(string_to_date("abcd-01-02"), Date::from_ymd(0, 1, 2));
    assert_eq!(string_to_date("2030-xx-02"), Date::from_ymd(2030, 0, 2));
    assert_eq!(string_to_date("2030-01-"), Date::from_ymd(2030, 1, 0));
    assert_eq!(string_to_date("--"), Date::from_ymd(0, 0, 0));
    assert_eq!(string_to_date("99999999999-1-1"), Date::from_ymd(0, 1, 1));
}

#[test]
fn string_to_date_falls_back_on_another_shape() {
    let fallback = Date::from_ymd(2024, 1, 1);
    assert_eq!(string_to_date(""), fallback);
    assert_eq!(string_to_date("2030-01"), fallback);
    assert_eq!(string_to_date("2030-01-01-01"), fallback);
    assert_eq!(string_to_date("-2030-01-01"), fallback);
    assert_eq!(string_to_date("2030/01/01"), fallback);
}

#[test]
fn string_to_date_reads_back_what_to_text_writes() {
    for date in [Date::from_ymd(2030, 1, 1), Date::from_ymd(1, 2, 3), Date::from_ymd(2024, 12, 31)] {
        assert_eq!(string_to_date(&date.to_text()), date);
    }
}

#[test]
fn date_input_shows_caption_and_date() {
    let mut input = DateInput::new("Start", Date::from_ymd(2025, 6, 1));
    assert_eq!(input.caption(), "Start");
    assert_eq!(input.display_text(), "Start:2025-06-01");
    assert!(!input.is_shown());
    input.toggle_show();
    assert!(input.is_shown());
    input.update_date(Date::from_ymd(2025, 7, 2));
    assert_eq!(input.get_date(), Date::from_ymd(2025, 7, 2));
    assert_eq!(input.display_text(), "Start:2025-07-02");
    assert!(input.is_shown());
    input.toggle_show();
    assert!(!input.is_shown());
}

fn card() -> IdCard {
    IdCard {
        ucn: "0123456789".to_owned(),
        id_card_number: "123456789".to_owned(),
        issue_authority: "MVR".to_owned(),
        issue_date: Date::from_ymd(2020, 2, 3),
        validity_date: Date::from_ymd(2030, 2, 3),
    }
}

#[test]
fn id_card_travels_with_its_dates_as_text() {
    let dto: IdCardDto = card().into();
    assert_eq!(dto.ucn, "0123456789");
    assert_eq!(dto.id_card_number, "123456789");
    assert_eq!(dto.issue_authority, "MVR");
    assert_eq!(dto.issue_date, "2020-02-03");
    assert_eq!(dto.validity, "2030-02-03");
    let back: IdCard = dto.into();
    assert_eq!(back.issue_date, Date::from_ymd(2020, 2, 3));
    assert_eq!(back.validity_date, Date::from_ymd(2030, 2, 3));
    assert_eq!(back.ucn, "0123456789");
}

#[test]
fn guest_dto_becomes_a_guest_under_the_given_id() {
    let dto = GuestDto {
        first_name: "Ana".to_owned(),
        last_name: "Ivanova".to_owned(),
        date_of_birth: "1990-05-06".to_owned(),
        id_card: Some(card().into()),
        phone_number: Some("+359888123456".to_owned()),
    };
    let guest = dto.convert_with_id(77);
    assert_eq!(guest.id, 77);
    assert_eq!(guest.first_name, "Ana");
    assert_eq!(guest.last_name, "Ivanova");
    assert_eq!(guest.date_of_birth, Date::from_ymd(1990, 5, 6));
    assert_eq!(guest.phone_number.as_deref(), Some("+359888123456"));
    let id_card = guest.id_card.expect("the card travels along");
    assert_eq!(id_card.validity_date, Date::from_ymd(2030, 2, 3));
    let copy = GuestDto {
        first_name: "Bo".to_owned(),
        last_name: "Li".to_owned(),
        date_of_birth: "not a date".to_owned(),
        id_card: None,
        phone_number: None,
    }
    .convert_with_id(1)
    .clone();
    assert_eq!(copy.date_of_birth, Date::from_ymd(2024, 1, 1));
    assert!(copy.id_card.is_none());
    assert!(copy.phone_number.is_none());
}
