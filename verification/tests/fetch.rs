use goodwe_web::calendar::CalendarError;
use goodwe_web::goodwe::fetch::{
    FetchError, FetchRun, Progress, CHARGE_LOG_URL, SESSION_EXPIRED,
};
use goodwe_web::goodwe::record::{json_f64, read_record};
use goodwe_web::goodwe::request::{headers_at, Reply};
use goodwe_web::goodwe::token::TokenData;
use goodwe_web::json::{json_text, Json, JsonNumber};

fn text(t: &str) -> Json {
    Json::Text(t.to_owned())
}

fn number(n: u64) -> Json {
    Json::Number(JsonNumber::PosInt(n))
}

fn float(t: &str) -> Json {
    Json::Number(JsonNumber::Float(t.to_owned()))
}

fn entry(k: &str, v: Json) -> (String, Json) {
    (k.to_owned(), v)
}

fn charge(start: &str) -> Json {
    Json::Object(vec![entry("chargeStartTime", text(start))])
}

fn answer(code: &str, data: Json) -> Reply {
    Reply::Document(Json::Object(vec![entry("code", text(code)), entry("data", data)]))
}

fn page(starts: &[&str], total: u64) -> Reply {
    let entries = starts.iter().map(|s| charge(s)).collect();
    answer(
        "00000",
        Json::Object(vec![entry("dataList", Json::Array(entries)), entry("total", number(total))]),
    )
}

fn run() -> FetchRun {
    FetchRun::start(2024, 2, "SN1").unwrap()
}

fn page_num(run: &FetchRun) -> u64 {
    run.request_at(&TokenData::default(), "", 0).body.field("pageNum").unsigned_or_zero()
}

#[test]
fn requests_name_device_month_and_page() {
    let token = TokenData {
        uid: "u".to_owned(),
        token: "t".to_owned(),
        language: "de".to_owned(),
        ..TokenData::default()
    };
    let request = run().request_at(&token, "{}", 9);
    assert_eq!(request.url, CHARGE_LOG_URL);
    assert_eq!(
        request.url,
        "https://eu-gateway.semsportal.com/web/sems/sems-plant/api/v1/chargePile/queryChargeLogList"
    );
    assert_eq!(
        json_text(&request.body),
        r#"{"endTime":"2024-02-29 23:59:59","pageNum":1,"pageSize":100,"sn":"SN1","startTime":"2024-02-01 00:00:00"}"#
    );
    let expected = headers_at("{}", "u", "t", "de", 9);
    assert_eq!(request.headers.len(), expected.len());
    for (a, b) in request.headers.iter().zip(expected.iter()) {
        assert_eq!((a.name, &a.value), (b.name, &b.value));
    }
    assert_eq!(json_text(&run().request(&token, "{}").body), json_text(&request.body));
}

#[test]
fn months_that_cannot_be_fetched() {
    let e = FetchRun::start(300000, 1, "SN1").unwrap_err();
    assert!(matches!(e, FetchError::Calendar(CalendarError::InvalidYearMonth)));
    assert_eq!(e.message(), "Invalid year/month");
    let e = FetchRun::start(-262143, 0, "SN1").unwrap_err();
    assert_eq!(e.message(), "Date arithmetic error");
}

#[test]
fn pages_are_collected_until_the_total_is_reached() {
    let mut r = run();
    assert_eq!(r.advance(&page(&["a", "b"], 5)).unwrap(), Progress::NextPage);
    assert_eq!(page_num(&r), 2);
    assert_eq!(r.page(), 2);
    assert_eq!(r.advance(&page(&["c"], 5)).unwrap(), Progress::NextPage);
    assert_eq!(page_num(&r), 3);
    assert_eq!(r.advance(&page(&["d", "e"], 5)).unwrap(), Progress::Complete);
    assert_eq!(r.len(), 5);
    let records = r.into_records();
    let sessions: Vec<usize> = records.iter().map(|x| x.session).collect();
    let starts: Vec<&str> = records.iter().map(|x| x.start.as_str()).collect();
    assert_eq!(sessions, vec![1, 2, 3, 4, 5]);
    assert_eq!(starts, vec!["a", "b", "c", "d", "e"]);
}

#[test]
fn an_empty_page_ends_the_fetch() {
    let mut r = run();
    assert_eq!(r.advance(&page(&["a"], 100)).unwrap(), Progress::NextPage);
    assert_eq!(r.advance(&page(&[], 100)).unwrap(), Progress::Complete);
    assert_eq!(r.len(), 1);
    let mut empty = run();
    assert_eq!(empty.advance(&page(&[], 0)).unwrap(), Progress::Complete);
    assert_eq!(empty.into_records().len(), 0);
}

#[test]
fn a_missing_total_counts_as_zero() {
    let mut r = run();
    let data = Json::Object(vec![entry("dataList", Json::Array(vec![charge("a")]))]);
    assert_eq!(r.advance(&answer("00000", data)).unwrap(), Progress::Complete);
    assert_eq!(r.len(), 1);
}

#[test]
fn expired_sessions_are_told_by_two_codes() {
    for code in ["C0602", "C0607"] {
        let mut r = run();
        let e = r.advance(&answer(code, Json::Null)).unwrap_err();
        assert!(matches!(e, FetchError::SessionExpired));
        assert_eq!(e.message(), SESSION_EXPIRED);
    }
    let mut r = run();
    let e = r.advance(&answer("C0603", Json::Null)).unwrap_err();
    assert_eq!(e.message(), "API error (C0603): unknown");
}

#[test]
fn a_failed_page_leaves_the_fetch_as_it_was() {
    let mut r = run();
    r.advance(&page(&["a"], 9)).unwrap();
    let e = r
        .advance(&Reply::Document(Json::Object(vec![
            entry("code", text("E1")),
            entry("description", text("busy")),
        ])))
        .unwrap_err();
    assert_eq!(e.message(), "API error (E1): busy");
    assert_eq!(r.len(), 1);
    assert_eq!(page_num(&r), 2);
    let e = r.advance(&Reply::SendFailed("no route".to_owned())).unwrap_err();
    assert_eq!(e.message(), "Charge log request failed: no route");
    let e = r.advance(&Reply::Unreadable("not JSON".to_owned())).unwrap_err();
    assert_eq!(e.message(), "Failed to parse charge log response: not JSON");
    let e = r.advance(&answer("00000", Json::Null)).unwrap_err();
    assert!(matches!(e, FetchError::MissingDataList));
    assert_eq!(e.message(), "API response missing 'dataList'");
    assert_eq!(r.advance(&page(&["b"], 2)).unwrap(), Progress::Complete);
    assert_eq!(r.len(), 2);
}

#[test]
fn records_read_every_field() {
    let r = read_record(
        4,
        &Json::Object(vec![
            entry("chargeStartTime", text("2024-02-01 10:00:00")),
            entry("chargeEndTime", text("2024-02-01 11:30:00")),
            entry("chargeTimeLength", number(90)),
            entry("currentChargeQuantity", float("12.5")),
            entry("greenElec", text(" 7.25 ")),
            entry("purElec", number(5)),
            entry("mileage", Json::Number(JsonNumber::NegInt(-1))),
            entry("chargeEndCause", text("full")),
        ]),
    );
    assert_eq!(r.session, 4);
    assert_eq!(r.start, "2024-02-01 10:00:00");
    assert_eq!(r.end, "2024-02-01 11:30:00");
    assert_eq!(r.duration_min, 90);
    assert_eq!(r.total_kwh, "12.5");
    assert_eq!(r.green_kwh, "7.25");
    assert_eq!(r.import_kwh, "5");
    assert_eq!(r.range_km, "-1");
    assert_eq!(r.end_cause, "full");
}

#[test]
fn records_of_entries_that_say_nothing() {
    let r = read_record(1, &Json::Null);
    assert_eq!(r.start, "");
    assert_eq!(r.end, "");
    assert_eq!(r.duration_min, 0);
    assert_eq!(r.total_kwh, "0");
    assert_eq!(r.end_cause, "");
}

#[test]
fn numerals_name_the_number_itself() {
    for n in [0u64, 1, 9007199254740993, u64::MAX] {
        assert_eq!(json_f64(&number(n)).parse::<f64>().unwrap(), n as f64);
    }
    for n in [-1i64, -9007199254740993, i64::MIN] {
        let v = Json::Number(JsonNumber::NegInt(n));
        assert_eq!(json_f64(&v).parse::<f64>().unwrap(), n as f64);
    }
    assert_eq!(json_f64(&float("0.1")).parse::<f64>().unwrap(), 0.1);
    assert_eq!(json_f64(&Json::Bool(true)), "0");
    assert_eq!(json_f64(&Json::Array(vec![])), "0");
}

#[test]
fn replies_that_memory_can_hold_fit() {
    let r = run();
    assert!(r.fits(&page(&["a", "b"], 2)));
    assert!(r.fits(&answer("00000", Json::Null)));
    assert!(r.fits(&Reply::SendFailed(String::new())));
    assert_eq!(r.page(), 1);
}
