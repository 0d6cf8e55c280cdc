use bus_arrival_bot::arrivals::BusTiming;
use bus_arrival_bot::report::{format_bus_timings_message, format_timing_block};

const SEPARATOR: &str = "\\-\\-\\-\\-\\-\\-\\-\\-\\-\\-\\-\\-\\-\\-\\-\\-\\-\\-\\-\\-\\-\\-\\-\\-\\-\\-";

fn timing(number: &str, first: &str, second: &str, third: &str) -> BusTiming {
    BusTiming {
        service_no: number.to_string(),
        next_arrival: first.to_string(),
        next_arrival_2: second.to_string(),
        next_arrival_3: third.to_string(),
    }
}

#[test]
fn separator_has_twenty_six_escaped_hyphens() {
    assert_eq!(SEPARATOR.len(), 52);
    let block = format_timing_block(&timing("15", "ARR", "2 min", "NIL"));
    let last = block.lines().last().unwrap();
    assert_eq!(last, SEPARATOR);
    assert_eq!(last.matches("\\-").count(), 26);
    assert_eq!(last.replace("\\-", ""), "");
}

#[test]
fn block_of_one_service() {
    let block = format_timing_block(&timing("15", "ARR", "2 min", "NIL"));
    let expected = format!(
        "*Service No:* 15\n*Next Arrival:* ARR\n*Next Arrival 2:* 2 min\n*Next Arrival 3:* NIL\n{}\n",
        SEPARATOR
    );
    assert_eq!(block, expected);
}

#[test]
fn report_without_services_is_the_heading() {
    assert_eq!(format_bus_timings_message(Vec::new()), "*Bus Timings:*\n\n");
}

#[test]
fn report_of_one_service() {
    let message = format_bus_timings_message(vec![timing("15", "ARR", "2 min", "NIL")]);
    let expected = format!(
        "*Bus Timings:*\n\n*Service No:* 15\n*Next Arrival:* ARR\n*Next Arrival 2:* 2 min\n*Next Arrival 3:* NIL\n{}\n",
        SEPARATOR
    );
    assert_eq!(message, expected);
}

#[test]
fn report_of_two_services_has_a_blank_line_between() {
    let message = format_bus_timings_message(
        vec![timing("15", "ARR", "2 min", "NIL"), timing("20", "NIL", "NIL", "NIL")],
    );
    let expected = format!(
        "*Bus Timings:*\n\n*Service No:* 15\n*Next Arrival:* ARR\n*Next Arrival 2:* 2 min\n*Next Arrival 3:* NIL\n{}\n\n*Service No:* 20\n*Next Arrival:* NIL\n*Next Arrival 2:* NIL\n*Next Arrival 3:* NIL\n{}\n",
        SEPARATOR, SEPARATOR
    );
    assert_eq!(message, expected);
}

#[test]
fn report_of_three_services_keeps_order_and_has_three_separators() {
    let message = format_bus_timings_message(
        vec![
            timing("15", "ARR", "5 min", "12 min"),
            timing("20", "3 min", "NIL", "NIL"),
            timing("147", "NIL", "NIL", "NIL"),
        ],
    );
    let first = message.find("*Service No:* 15\n").unwrap();
    let second = message.find("*Service No:* 20\n").unwrap();
    let third = message.find("*Service No:* 147\n").unwrap();
    assert!(first < second);
    assert!(second < third);
    assert_eq!(message.lines().filter(|line| *line == SEPARATOR).count(), 3);
    assert_eq!(message.matches("*Service No:* ").count(), 3);
    assert!(message.starts_with("*Bus Timings:*\n\n*Service No:* 15\n"));
    assert!(message.ends_with(&format!("{}\n", SEPARATOR)));
}
