//! Arrival estimates of a bus stop and the short texts that show them.

use vstd::prelude::*;
use vstd::string::*;
use crate::text::{decimal, decimal_u64, optional_text};

verus! {

/// One arrival estimate of a service: an RFC 3339 timestamp, or nothing where
/// no estimate is known.
#[derive(Debug)]
pub struct BusArrival {
    pub estimated_arrival: Option<String>,
}

/// One service of a stop with its three next arrival estimates.
#[derive(Debug)]
pub struct BusService {
    pub service_no: String,
    pub next_bus: BusArrival,
    pub next_bus2: BusArrival,
    pub next_bus3: BusArrival,
}

/// What is shown of one service: its number and one text per estimate.
#[derive(Debug)]
pub struct BusTiming {
    pub service_no: String,
    pub next_arrival: String,
    pub next_arrival_2: String,
    pub next_arrival_3: String,
}

/// Mathematical value of a [`BusArrival`].
pub struct BusArrivalView {
    pub estimated_arrival: Option<Seq<char>>,
}

/// Mathematical value of a [`BusService`].
pub struct BusServiceView {
    pub service_no: Seq<char>,
    pub next_bus: BusArrivalView,
    pub next_bus2: BusArrivalView,
    pub next_bus3: BusArrivalView,
}

/// Mathematical value of a [`BusTiming`].
pub struct BusTimingView {
    pub service_no: Seq<char>,
    pub next_arrival: Seq<char>,
    pub next_arrival_2: Seq<char>,
    pub next_arrival_3: Seq<char>,
}

impl View for BusArrival {
    type V = BusArrivalView;

    open spec fn view(&self) -> BusArrivalView {
        BusArrivalView {
            estimated_arrival: optional_text(self.estimated_arrival),
        }
    }
}

impl View for BusService {
    type V = BusServiceView;

    open spec fn view(&self) -> BusServiceView {
        BusServiceView {
            service_no: self.service_no@,
            next_bus: self.next_bus@,
            next_bus2: self.next_bus2@,
            next_bus3: self.next_bus3@,
        }
    }
}

impl View for BusTiming {
    type V = BusTimingView;

    open spec fn view(&self) -> BusTimingView {
        BusTimingView {
            service_no: self.service_no@,
            next_arrival: self.next_arrival@,
            next_arrival_2: self.next_arrival_2@,
            next_arrival_3: self.next_arrival_3@,
        }
    }
}

/// The values of a list of services, in order.
pub open spec fn services_view(services: Seq<BusService>) -> Seq<BusServiceView> {
    Seq::new(services.len(), |i: int| services[i]@)
}

/// The values of a list of timings, in order.
pub open spec fn timings_view(timings: Seq<BusTiming>) -> Seq<BusTimingView> {
    Seq::new(timings.len(), |i: int| timings[i]@)
}

/// The instant, in seconds since the Unix epoch, that chrono reads out of a
/// text as an RFC 3339 timestamp; `None` where chrono rejects the text.
pub uninterp spec fn rfc3339_timestamp(text: Seq<char>) -> Option<i64>;

/// Text of an arrival that is due or past.
pub open spec fn arriving_text() -> Seq<char> {
    "ARR"@
}

/// Text of an estimate that is not there.
pub open spec fn no_estimate_text() -> Seq<char> {
    "NIL"@
}

/// Whole minutes from `now` to `arrival`, both in seconds, rounded down.
pub open spec fn minutes_until(arrival: int, now: int) -> int {
    (arrival - now) / 60
}

/// The text for an arrival at a known instant: `ARR` when less than a whole
/// minute is left, else the whole minutes left, followed by ` min`.
pub open spec fn arrival_display(arrival: int, now: int) -> Seq<char> {
    if minutes_until(arrival, now) <= 0 {
        arriving_text()
    } else {
        decimal(minutes_until(arrival, now)) + " min"@
    }
}

/// The instant that stands for a reading of an estimate's text: the instant
/// that was read, and the epoch itself where the text was rejected.
pub open spec fn reading_instant(reading: Option<i64>) -> int {
    match reading {
        Some(seconds) => seconds as int,
        None => 0,
    }
}

/// The instant that stands for an estimate's text: that of what chrono reads
/// out of it.
pub open spec fn estimate_instant(text: Seq<char>) -> int {
    reading_instant(rfc3339_timestamp(text))
}

/// The text for one estimate: `NIL` for a missing one, else the text for the
/// instant that stands for it.
pub open spec fn estimate_display(estimate: BusArrivalView, now: int) -> Seq<char> {
    match estimate.estimated_arrival {
        None => no_estimate_text(),
        Some(text) => arrival_display(estimate_instant(text), now),
    }
}

/// What is shown of a service at the instant `now`.
pub open spec fn service_summary(service: BusServiceView, now: int) -> BusTimingView {
    BusTimingView {
        service_no: service.service_no,
        next_arrival: estimate_display(service.next_bus, now),
        next_arrival_2: estimate_display(service.next_bus2, now),
        next_arrival_3: estimate_display(service.next_bus3, now),
    }
}

/// What is shown of each service of a list, in the list's order.
pub open spec fn services_summary(services: Seq<BusServiceView>, now: int) -> Seq<BusTimingView> {
    Seq::new(services.len(), |i: int| service_summary(services[i], now))
}

/// Reads a text with chrono's `DateTime::parse_from_rfc3339` and converts an
/// accepted instant with `DateTime::timestamp`. The result is taken to depend
/// on the text alone; nothing more is claimed of it.
#[verifier::external_body]
fn parse_rfc3339_timestamp(text: &str) -> (seconds: Option<i64>)
    ensures
        seconds == rfc3339_timestamp(text@),
{
    match chrono::DateTime::parse_from_rfc3339(text) {
        Ok(instant) => Some(instant.timestamp()),
        Err(_) => None,
    }
}

/// Reads the clock with chrono's `Utc::now` and converts the instant with
/// `DateTime::timestamp`. Nothing is claimed of the value. chrono stops the
/// program where the machine's clock stands before 1970.
#[verifier::external_body]
pub(crate) fn current_timestamp() -> (seconds: i64) {
    chrono::Utc::now().timestamp()
}

/// The text for an arrival at the instant `arrival`, seen at the instant `now`.
pub fn display_arrival(arrival: i64, now: i64) -> (text: String)
    ensures
        text@ == arrival_display(arrival as int, now as int),
{
    let seconds: i128 = arrival as i128 - now as i128;
    if seconds < 60 {
        String::from_str("ARR")
    } else {
        let minutes: u64 = ((seconds as u128) / 60) as u64;
        assert(minutes as int == minutes_until(arrival as int, now as int));
        decimal_u64(minutes).concat(" min")
    }
}

/// The instant that stands for a reading of an estimate's text.
pub fn instant_of_reading(reading: Option<i64>) -> (seconds: i64)
    ensures
        seconds as int == reading_instant(reading),
{
    match reading {
        Some(seconds) => seconds,
        None => 0,
    }
}

/// The instant that stands for an estimate's text.
pub fn instant_of_estimate(text: &str) -> (seconds: i64)
    ensures
        seconds as int == estimate_instant(text@),
{
    instant_of_reading(parse_rfc3339_timestamp(text))
}

/// The text for one estimate, seen at the instant `now`.
pub fn format_arrival(arrival: &BusArrival, now: i64) -> (text: String)
    ensures
        text@ == estimate_display(arrival@, now as int),
{
    match &arrival.estimated_arrival {
        Some(time) => display_arrival(instant_of_estimate(time.as_str()), now),
        None => String::from_str("NIL"),
    }
}

/// What is shown of a service, seen at the instant `now`.
pub fn summarize_service(service: &BusService, now: i64) -> (timing: BusTiming)
    ensures
        timing@ == service_summary(service@, now as int),
{
    BusTiming {
        service_no: service.service_no.clone(),
        next_arrival: format_arrival(&service.next_bus, now),
        next_arrival_2: format_arrival(&service.next_bus2, now),
        next_arrival_3: format_arrival(&service.next_bus3, now),
    }
}

/// What is shown of each service of a list, in the list's order, seen at the
/// instant `now`.
pub fn summarize_services_at(services: &Vec<BusService>, now: i64) -> (timings: Vec<BusTiming>)
    ensures
        timings_view(timings@) == services_summary(services_view(services@), now as int),
{
    let mut timings: Vec<BusTiming> = Vec::new();
    let mut i: usize = 0;
    while i < services.len()
        invariant
            i <= services@.len(),
            timings@.len() == i,
            forall|k: int| 0 <= k < i ==> (#[trigger] timings@[k])@ == service_summary(services@[k]@, now as int),
        decreases services@.len() - i,
    {
        let timing = summarize_service(&services[i], now);
        timings.push(timing);
        i += 1;
    }
    assert(timings_view(timings@) =~= services_summary(services_view(services@), now as int));
    timings
}

/// What is shown of each service of a list, in the list's order, seen at the
/// instant at which the clock is read.
pub fn summarize_services(services: &Vec<BusService>) -> (timings: Vec<BusTiming>)
    ensures
        exists|now: i64| timings_view(timings@) == #[trigger] services_summary(services_view(services@), now as int),
{
    let now = current_timestamp();
    summarize_services_at(services, now)
}

/// A missing estimate is shown as `NIL` at any instant.
pub proof fn law_missing_estimate_display(now: int)
    ensures
        estimate_display(BusArrivalView { estimated_arrival: None }, now) == no_estimate_text(),
{
}

/// An arrival that is due or past is shown as `ARR`; one that is a whole
/// minute or more away is shown as its whole minutes, rounded down, and
/// ` min`.
pub proof fn law_arrival_display(arrival: int, now: int)
    requires
        arrival <= now || arrival - now >= 60,
    ensures
        arrival <= now ==> arrival_display(arrival, now) == arriving_text(),
        arrival > now ==> arrival_display(arrival, now) == decimal((arrival - now) / 60) + " min"@,
{
}

/// An arrival that is less than a whole minute away is shown as `ARR`, as one
/// that is due.
pub proof fn law_arrival_within_the_minute(arrival: int, now: int)
    requires
        now < arrival < now + 60,
    ensures
        arrival_display(arrival, now) == arriving_text(),
{
}

/// An estimate whose text chrono rejects is shown as an arrival at the
/// epoch: as `ARR` at any instant from the epoch on.
pub proof fn law_unreadable_estimate_display(text: Seq<char>, now: int)
    requires
        now >= 0,
    ensures
        rfc3339_timestamp(text) is None ==> estimate_display(
            BusArrivalView { estimated_arrival: Some(text) },
            now,
        ) == arriving_text(),
{
}

} // verus!
