use bus_arrival_bot::arrivals::{
    display_arrival, format_arrival, instant_of_estimate, instant_of_reading, summarize_service, summarize_services,
    summarize_services_at, BusArrival, BusService,
};
use bus_arrival_bot::text::{decimal_i64, decimal_u64};

const NEW_YEAR_2024: i64 = 1_704_067_200;

fn estimate(text: &str) -> BusArrival {
    BusArrival { estimated_arrival: Some(text.to_string()) }
}

fn missing() -> BusArrival {
    BusArrival { estimated_arrival: None }
}

fn service(number: &str, first: BusArrival, second: BusArrival, third: BusArrival) -> BusService {
    BusService { service_no: number.to_string(), next_bus: first, next_bus2: second, next_bus3: third }
}

#[test]
fn decimal_of_unsigned_numbers() {
    assert_eq!(decimal_u64(0), "0");
    assert_eq!(decimal_u64(7), "7");
    assert_eq!(decimal_u64(10), "10");
    assert_eq!(decimal_u64(147), "147");
    assert_eq!(decimal_u64(1_234_567_890), "1234567890");
    assert_eq!(decimal_u64(u64::MAX), u64::MAX.to_string());
}

#[test]
fn decimal_of_signed_numbers() {
    assert_eq!(decimal_i64(0), "0");
    assert_eq!(decimal_i64(42), "42");
    assert_eq!(decimal_i64(-42), "-42");
    assert_eq!(decimal_i64(-1_001_234_567_890), "-1001234567890");
    assert_eq!(decimal_i64(i64::MAX), "9223372036854775807");
    assert_eq!(decimal_i64(i64::MIN), "-9223372036854775808");
}

#[test]
fn arrival_in_125_seconds_is_two_minutes() {
    assert_eq!(display_arrival(NEW_YEAR_2024 + 125, NEW_YEAR_2024), "2 min");
}

#[test]
fn arrival_ten_seconds_ago_is_arriving() {
    assert_eq!(display_arrival(NEW_YEAR_2024 - 10, NEW_YEAR_2024), "ARR");
}

#[test]
fn arrival_now_is_arriving() {
    assert_eq!(display_arrival(NEW_YEAR_2024, NEW_YEAR_2024), "ARR");
}

#[test]
fn arrival_within_the_minute_is_arriving() {
    assert_eq!(display_arrival(NEW_YEAR_2024 + 30, NEW_YEAR_2024), "ARR");
    assert_eq!(display_arrival(NEW_YEAR_2024 + 59, NEW_YEAR_2024), "ARR");
}

#[test]
fn arrival_in_a_whole_minute_is_one_minute() {
    assert_eq!(display_arrival(NEW_YEAR_2024 + 60, NEW_YEAR_2024), "1 min");
    assert_eq!(display_arrival(NEW_YEAR_2024 + 119, NEW_YEAR_2024), "1 min");
    assert_eq!(display_arrival(NEW_YEAR_2024 + 120, NEW_YEAR_2024), "2 min");
}

#[test]
fn arrival_display_at_the_ends_of_the_range() {
    assert_eq!(display_arrival(i64::MAX, i64::MIN), "307445734561825860 min");
    assert_eq!(display_arrival(i64::MIN, i64::MAX), "ARR");
    assert_eq!(display_arrival(i64::MAX, 0), "153722867280912930 min");
}

#[test]
fn missing_estimate_is_nil() {
    assert_eq!(format_arrival(&missing(), NEW_YEAR_2024), "NIL");
    assert_eq!(format_arrival(&missing(), 0), "NIL");
}

#[test]
fn estimate_is_read_as_rfc3339() {
    assert_eq!(instant_of_estimate("2024-01-01T00:00:00Z"), NEW_YEAR_2024);
    assert_eq!(instant_of_estimate("2024-01-01T08:00:00+08:00"), NEW_YEAR_2024);
    assert_eq!(instant_of_estimate("1970-01-01T00:00:10+00:00"), 10);
    assert_eq!(instant_of_estimate("1969-12-31T23:59:00Z"), -60);
}

#[test]
fn unreadable_estimate_stands_for_the_epoch() {
    assert_eq!(instant_of_estimate("not a timestamp"), 0);
    assert_eq!(instant_of_estimate(""), 0);
    assert_eq!(instant_of_estimate("2024-01-01"), 0);
}

#[test]
fn rejected_reading_stands_for_the_epoch() {
    assert_eq!(instant_of_reading(None), 0);
    assert_eq!(instant_of_reading(Some(0)), 0);
    assert_eq!(instant_of_reading(Some(-60)), -60);
    assert_eq!(instant_of_reading(Some(NEW_YEAR_2024)), NEW_YEAR_2024);
    assert_eq!(instant_of_reading(Some(i64::MAX)), i64::MAX);
}

#[test]
fn unreadable_estimate_is_arriving() {
    assert_eq!(format_arrival(&estimate("soon"), NEW_YEAR_2024), "ARR");
    assert_eq!(format_arrival(&estimate(""), 0), "ARR");
}

#[test]
fn unreadable_estimate_before_the_epoch_counts_minutes() {
    assert_eq!(format_arrival(&estimate("soon"), -120), "2 min");
}

#[test]
fn estimate_with_offset_counts_minutes() {
    let arrival = estimate("2024-01-01T08:02:05+08:00");
    assert_eq!(format_arrival(&arrival, NEW_YEAR_2024), "2 min");
    assert_eq!(format_arrival(&arrival, NEW_YEAR_2024 + 66), "ARR");
    assert_eq!(format_arrival(&arrival, NEW_YEAR_2024 - 600), "12 min");
}

#[test]
fn service_summary_treats_each_estimate_alone() {
    let bus = service(
        "15",
        estimate("2024-01-01T00:00:30Z"),
        estimate("2024-01-01T00:09:59Z"),
        missing(),
    );
    let timing = summarize_service(&bus, NEW_YEAR_2024);
    assert_eq!(timing.service_no, "15");
    assert_eq!(timing.next_arrival, "ARR");
    assert_eq!(timing.next_arrival_2, "9 min");
    assert_eq!(timing.next_arrival_3, "NIL");
}

#[test]
fn services_are_summarized_in_order() {
    let services = vec![
        service("15", estimate("2024-01-01T00:03:00Z"), missing(), missing()),
        service("20", missing(), estimate("bad"), missing()),
        service("147", missing(), missing(), estimate("2024-01-01T01:00:00Z")),
    ];
    let timings = summarize_services_at(&services, NEW_YEAR_2024);
    assert_eq!(timings.len(), 3);
    assert_eq!(timings[0].service_no, "15");
    assert_eq!(timings[0].next_arrival, "3 min");
    assert_eq!(timings[1].service_no, "20");
    assert_eq!(timings[1].next_arrival_2, "ARR");
    assert_eq!(timings[2].service_no, "147");
    assert_eq!(timings[2].next_arrival_3, "60 min");
    assert_eq!(timings[2].next_arrival, "NIL");
}

#[test]
fn no_services_give_no_summaries() {
    assert!(summarize_services_at(&Vec::new(), NEW_YEAR_2024).is_empty());
    assert!(summarize_services(&Vec::new()).is_empty());
}

#[test]
fn summaries_at_the_clock() {
    let services = vec![
        service(
            "15",
            estimate("2000-01-01T00:00:00Z"),
            missing(),
            estimate("9000-01-01T00:00:00Z"),
        ),
    ];
    let timings = summarize_services(&services);
    assert_eq!(timings.len(), 1);
    assert_eq!(timings[0].service_no, "15");
    assert_eq!(timings[0].next_arrival, "ARR");
    assert_eq!(timings[0].next_arrival_2, "NIL");
    assert!(timings[0].next_arrival_3.ends_with(" min"));
    let minutes: u64 = timings[0].next_arrival_3.trim_end_matches(" min").parse().unwrap();
    assert!(minutes > 3_000_000_000);
}
