//! The arrival report: one block of text per service under a heading.

use vstd::prelude::*;
use vstd::string::*;
use crate::arrivals::{timings_view, BusTiming, BusTimingView};

verus! {

/// The heading of a report, with the blank line under it.
pub open spec fn report_heading() -> Seq<char> {
    "*Bus Timings:*\n\n"@
}

/// The line that closes a block: twenty-six hyphens, each escaped with a
/// backslash so that strict markdown shows it as it is, and a line break.
pub open spec fn separator_line() -> Seq<char> {
    "\\-\\-\\-\\-\\-\\-\\-\\-\\-\\-\\-\\-\\-\\-\\-\\-\\-\\-\\-\\-\\-\\-\\-\\-\\-\\-\n"@
}

/// The block of one service: four labelled lines and the separator line.
pub open spec fn timing_block(timing: BusTimingView) -> Seq<char> {
    "*Service No:* "@ + timing.service_no + "\n*Next Arrival:* "@ + timing.next_arrival
        + "\n*Next Arrival 2:* "@ + timing.next_arrival_2 + "\n*Next Arrival 3:* "@
        + timing.next_arrival_3 + "\n"@ + separator_line()
}

/// The blocks of a list of services in the list's order, with one blank line
/// between two blocks.
pub open spec fn joined_blocks(timings: Seq<BusTimingView>) -> Seq<char>
    decreases timings.len(),
{
    if timings.len() == 0 {
        Seq::empty()
    } else if timings.len() == 1 {
        timing_block(timings[0])
    } else {
        joined_blocks(timings.drop_last()) + "\n"@ + timing_block(timings.last())
    }
}

/// The whole report: the heading, then the blocks.
pub open spec fn bus_timings_text(timings: Seq<BusTimingView>) -> Seq<char> {
    report_heading() + joined_blocks(timings)
}

/// Writes the block of one service.
pub fn format_timing_block(timing: &BusTiming) -> (block: String)
    ensures
        block@ == timing_block(timing@),
{
    let mut block = String::from_str("*Service No:* ");
    block.append(timing.service_no.as_str());
    block.append("\n*Next Arrival:* ");
    block.append(timing.next_arrival.as_str());
    block.append("\n*Next Arrival 2:* ");
    block.append(timing.next_arrival_2.as_str());
    block.append("\n*Next Arrival 3:* ");
    block.append(timing.next_arrival_3.as_str());
    block.append("\n");
    block.append(
        "\\-\\-\\-\\-\\-\\-\\-\\-\\-\\-\\-\\-\\-\\-\\-\\-\\-\\-\\-\\-\\-\\-\\-\\-\\-\\-\n",
    );
    block
}

/// Writes the report for a list of services.
pub fn format_bus_timings_message(bus_timings: Vec<BusTiming>) -> (message: String)
    ensures
        message@ == bus_timings_text(timings_view(bus_timings@)),
{
    let ghost all = timings_view(bus_timings@);
    let mut message = String::from_str("*Bus Timings:*\n\n");
    let mut i: usize = 0;
    while i < bus_timings.len()
        invariant
            i <= bus_timings@.len(),
            all == timings_view(bus_timings@),
            message@ == report_heading() + joined_blocks(all.take(i as int)),
        decreases bus_timings@.len() - i,
    {
        let block = format_timing_block(&bus_timings[i]);
        let ghost before = message@;
        if i > 0 {
            message.append("\n");
        }
        message.append(block.as_str());
        proof {
            let next = all.take(i + 1);
            assert(next.drop_last() =~= all.take(i as int));
            assert(next.last() == bus_timings@[i as int]@);
            if i == 0 {
                assert(joined_blocks(all.take(0)) =~= Seq::<char>::empty());
                assert(message@ =~= report_heading() + joined_blocks(next));
            } else {
                assert(message@ =~= report_heading() + joined_blocks(next));
            }
        }
        i += 1;
    }
    assert(all.take(i as int) =~= all);
    message
}

/// The blocks of a list of services, each after a blank line: what follows
/// in a report after the block of an earlier service.
pub open spec fn following_blocks(timings: Seq<BusTimingView>) -> Seq<char>
    decreases timings.len(),
{
    if timings.len() == 0 {
        Seq::empty()
    } else {
        following_blocks(timings.drop_last()) + "\n"@ + timing_block(timings.last())
    }
}

/// The blank line that parts a block from the blocks before it; nothing
/// before the first block.
pub open spec fn gap_before(i: int) -> Seq<char> {
    if i > 0 {
        "\n"@
    } else {
        Seq::empty()
    }
}

proof fn lemma_blocks_split(timings: Seq<BusTimingView>, i: int)
    requires
        0 <= i < timings.len(),
    ensures
        joined_blocks(timings) == joined_blocks(timings.take(i + 1)) + following_blocks(
            timings.skip(i + 1),
        ),
    decreases timings.len(),
{
    if i == timings.len() - 1 {
        assert(timings.take(i + 1) =~= timings);
        assert(timings.skip(i + 1) =~= Seq::<BusTimingView>::empty());
        assert(joined_blocks(timings) =~= joined_blocks(timings) + Seq::<char>::empty());
    } else {
        let earlier = timings.drop_last();
        lemma_blocks_split(earlier, i);
        assert(earlier.take(i + 1) =~= timings.take(i + 1));
        assert(timings.skip(i + 1).drop_last() =~= earlier.skip(i + 1));
        assert(timings.skip(i + 1).last() == timings.last());
        assert(joined_blocks(timings) =~= joined_blocks(timings.take(i + 1)) + following_blocks(
            timings.skip(i + 1),
        ));
    }
}

/// A report holds the block of each service, in the order of the list: before
/// the block of the service at `i` stands the whole report on the services
/// before it, and after it the blocks of the services after it.
pub proof fn law_report_holds_each_block_in_order(timings: Seq<BusTimingView>, i: int)
    requires
        0 <= i < timings.len(),
    ensures
        bus_timings_text(timings) == bus_timings_text(timings.take(i)) + gap_before(i)
            + timing_block(timings[i]) + following_blocks(timings.skip(i + 1)),
{
    lemma_blocks_split(timings, i);
    let upto = timings.take(i + 1);
    assert(upto.drop_last() =~= timings.take(i));
    assert(upto.last() == timings[i]);
    if i == 0 {
        assert(joined_blocks(timings.take(0)) =~= Seq::<char>::empty());
        assert(bus_timings_text(timings) =~= bus_timings_text(timings.take(i)) + gap_before(i)
            + timing_block(timings[i]) + following_blocks(timings.skip(i + 1)));
    } else {
        assert(bus_timings_text(timings) =~= bus_timings_text(timings.take(i)) + gap_before(i)
            + timing_block(timings[i]) + following_blocks(timings.skip(i + 1)));
    }
}

/// A report on no service is the heading alone.
pub proof fn law_empty_report_is_the_heading()
    ensures
        bus_timings_text(Seq::empty()) == report_heading(),
{
    assert(bus_timings_text(Seq::empty()) =~= report_heading());
}

} // verus!
