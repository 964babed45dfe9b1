use file_reader::auth::check_login;
use file_reader::auth::is_auth;
use file_reader::gate::append_response;
use file_reader::gate::build_append_record;
use file_reader::gate::file_exist_response;
use file_reader::gate::return_result;
use file_reader::gate::upload_response;
use file_reader::gate::AppendOutcome;
use file_reader::gate::UploadOutcome;
use file_reader::numeric::parse_usize;
use file_reader::numeric::u8_to_decimal;

#[test]
fn result_payload_is_rendered_exactly() {
    assert_eq!(return_result(0, ""), "{\"status\":0, \"message\":\"\"}");
    assert_eq!(return_result(1, "ok"), "{\"status\":1, \"message\":\"ok\"}");
    assert_eq!(return_result(255, "x"), "{\"status\":255, \"message\":\"x\"}");
}

#[test]
fn decimal_rendering_covers_all_widths() {
    assert_eq!(u8_to_decimal(0), "0");
    assert_eq!(u8_to_decimal(7), "7");
    assert_eq!(u8_to_decimal(10), "10");
    assert_eq!(u8_to_decimal(99), "99");
    assert_eq!(u8_to_decimal(100), "100");
    assert_eq!(u8_to_decimal(205), "205");
}

#[test]
fn parse_usize_accepts_digits_and_an_optional_plus() {
    assert_eq!(parse_usize("0"), Some(0));
    assert_eq!(parse_usize("42"), Some(42));
    assert_eq!(parse_usize("+5"), Some(5));
    assert_eq!(parse_usize("18446744073709551615"), Some(usize::MAX));
}

#[test]
fn parse_usize_rejects_garbage_and_overflow() {
    assert_eq!(parse_usize(""), None);
    assert_eq!(parse_usize("+"), None);
    assert_eq!(parse_usize("-1"), None);
    assert_eq!(parse_usize("1a"), None);
    assert_eq!(parse_usize(" 1"), None);
    assert_eq!(parse_usize("18446744073709551616"), None);
}

#[test]
fn appended_text_is_escaped_and_led_by_a_line_break() {
    assert_eq!(
        build_append_record("<b>&\"hi\"</b>"),
        "\r\n&lt;b&gt;&amp;&quot;hi&quot;&lt;&#x2f;b&gt;"
    );
    assert_eq!(build_append_record("it's"), "\r\nit&#x27;s");
    assert_eq!(build_append_record("plain"), "\r\nplain");
}

#[test]
fn append_answers_each_outcome() {
    assert_eq!(
        append_response(AppendOutcome::Disabled),
        "{\"status\":0, \"message\":\"write not supported\"}"
    );
    assert_eq!(
        append_response(AppendOutcome::OpenFailed),
        "{\"status\":0, \"message\":\"failed to open file\"}"
    );
    assert_eq!(
        append_response(AppendOutcome::WriteFailed),
        "{\"status\":0, \"message\":\"failed to write file\"}"
    );
    assert_eq!(append_response(AppendOutcome::Done), "{\"status\":1, \"message\":\"\"}");
}

#[test]
fn upload_answers_each_outcome() {
    assert_eq!(
        upload_response(UploadOutcome::Disabled),
        "{\"status\":0, \"message\":\"write not supported\"}"
    );
    assert_eq!(
        upload_response(UploadOutcome::BadFormat),
        "{\"status\":0, \"message\":\"write error\"}"
    );
    assert_eq!(
        upload_response(UploadOutcome::SaveFailed),
        "{\"status\":0, \"message\":\"write error\"}"
    );
    assert_eq!(upload_response(UploadOutcome::Done), "{\"status\":1, \"message\":\"\"}");
}

#[test]
fn existence_check_is_gated_on_write_mode() {
    assert_eq!(
        file_exist_response(false, true),
        "{\"status\":0, \"message\":\"write not supported\"}"
    );
    assert_eq!(file_exist_response(true, true), "{\"status\":1, \"message\":\"\"}");
    assert_eq!(file_exist_response(true, false), "{\"status\":0, \"message\":\"\"}");
}

#[test]
fn login_compares_both_credentials() {
    let user = Some("admin".to_string());
    let pass = Some("letmein".to_string());
    assert!(check_login(&user, &pass, &"admin".to_string(), &"letmein".to_string()));
    assert!(!check_login(&user, &pass, &"admin".to_string(), &"wrong".to_string()));
    assert!(!check_login(&user, &pass, &"other".to_string(), &"letmein".to_string()));
}

#[test]
fn missing_credentials_count_as_empty() {
    assert!(check_login(&None, &None, &"".to_string(), &"".to_string()));
    assert!(!check_login(&None, &None, &"a".to_string(), &"".to_string()));
}

#[test]
fn cookie_must_spell_the_configured_pair() {
    let user = Some("admin".to_string());
    assert!(is_auth(&user, &Some("username=admin".to_string())));
    assert!(!is_auth(&user, &Some("username=guest".to_string())));
    assert!(!is_auth(&user, &Some("admin".to_string())));
    assert!(!is_auth(&user, &None));
    assert!(is_auth(&None, &None));
    assert!(!is_auth(&None, &Some("username=admin".to_string())));
}
