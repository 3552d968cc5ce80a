//! Entur journey-planner queries for Oslo public transport, and the
//! filtering of the departures the service returns.

use vstd::prelude::*;
use vstd::string::*;
use crate::text::{contains_seq, occurs_at, str_contains, str_eq};

verus! {

/// The departures query up to the stop place id.
pub const DEPARTURES_QUERY_HEAD: &'static str = "{\n                stopPlace(id: \"";

/// The departures query after the stop place id: the stop's name and its
/// next ten calls with departure time, destination and line.
pub const DEPARTURES_QUERY_TAIL: &'static str = "\") {\n                    name\n                    estimatedCalls(timeRange: 72100, numberOfDepartures: 10) {\n                        expectedDepartureTime\n                        destinationDisplay {\n                            frontText\n                        }\n                        serviceJourney {\n                            line {\n                                publicCode\n                                transportMode\n                            }\n                        }\n                    }\n                }\n            }";

/// The journey query up to the origin's name.
pub const JOURNEY_QUERY_HEAD: &'static str = "{\n                trip(\n                    from: {\n                        name: \"";

/// The journey query between the origin's and the destination's names.
pub const JOURNEY_QUERY_MIDDLE: &'static str = "\"\n                    }\n                    to: {\n                        name: \"";

/// The journey query after the destination's name: five trip patterns with
/// their legs.
pub const JOURNEY_QUERY_TAIL: &'static str = "\"\n                    }\n                    numTripPatterns: 5\n                ) {\n                    tripPatterns {\n                        duration\n                        walkDistance\n                        legs {\n                            mode\n                            fromPlace {\n                                name\n                            }\n                            toPlace {\n                                name\n                            }\n                            expectedStartTime\n                            expectedEndTime\n                            line {\n                                publicCode\n                            }\n                        }\n                    }\n                }\n            }";

/// The GraphQL query for the next departures from a stop place
/// (an NSR id such as `NSR:StopPlace:58366`).
pub fn departures_query(stop_place_id: &str) -> (q: String)
    ensures
        q@ == DEPARTURES_QUERY_HEAD@ + stop_place_id@ + DEPARTURES_QUERY_TAIL@,
{
    let mut q = String::from_str(DEPARTURES_QUERY_HEAD);
    q.append(stop_place_id);
    q.append(DEPARTURES_QUERY_TAIL);
    q
}

/// The GraphQL query for up to five trips between two named places.
pub fn journey_query(from: &str, to: &str) -> (q: String)
    ensures
        q@ == JOURNEY_QUERY_HEAD@ + from@ + JOURNEY_QUERY_MIDDLE@ + to@ + JOURNEY_QUERY_TAIL@,
{
    let mut q = String::from_str(JOURNEY_QUERY_HEAD);
    q.append(from);
    q.append(JOURNEY_QUERY_MIDDLE);
    q.append(to);
    q.append(JOURNEY_QUERY_TAIL);
    q
}

/// The line a call belongs to.
pub struct Line {
    pub public_code: String,
    pub transport_mode: String,
}

pub struct ServiceJourney {
    pub line: Line,
}

/// The destination shown on the vehicle.
pub struct DestinationDisplay {
    pub front_text: String,
}

/// One departure from the stop.
pub struct EstimatedCall {
    pub expected_departure_time: String,
    pub destination_display: Option<DestinationDisplay>,
    pub service_journey: ServiceJourney,
}

pub struct StopPlace {
    pub name: String,
    pub estimated_calls: Vec<EstimatedCall>,
}

pub struct GraphQLData {
    pub stop_place: Option<StopPlace>,
}

/// The service's answer to a departures query.
pub struct GraphQLResponse {
    pub data: Option<GraphQLData>,
}

/// A departure as the filters see it.
pub struct CallView {
    pub expected_departure_time: Seq<char>,
    pub front_text: Option<Seq<char>>,
    pub public_code: Seq<char>,
    pub transport_mode: Seq<char>,
}

pub struct StopPlaceView {
    pub name: Seq<char>,
    pub estimated_calls: Seq<CallView>,
}

impl View for EstimatedCall {
    type V = CallView;

    open spec fn view(&self) -> CallView {
        CallView {
            expected_departure_time: self.expected_departure_time@,
            front_text: match self.destination_display {
                Some(d) => Some(d.front_text@),
                None => None,
            },
            public_code: self.service_journey.line.public_code@,
            transport_mode: self.service_journey.line.transport_mode@,
        }
    }
}

impl View for StopPlace {
    type V = StopPlaceView;

    open spec fn view(&self) -> StopPlaceView {
        StopPlaceView {
            name: self.name@,
            estimated_calls: self.estimated_calls@.map_values(|c: EstimatedCall| c@),
        }
    }
}

impl View for GraphQLResponse {
    /// The stop place, when the answer holds data and the data a stop place.
    type V = Option<Option<StopPlaceView>>;

    open spec fn view(&self) -> Option<Option<StopPlaceView>> {
        match self.data {
            Some(d) => Some(
                match d.stop_place {
                    Some(sp) => Some(sp@),
                    None => None,
                },
            ),
            None => None,
        }
    }
}

/// Which departures to keep: the transport mode, optionally the line's
/// public code, optionally a text the destination must contain.
pub open spec fn keeps(
    mode: Seq<char>,
    line: Option<Seq<char>>,
    destination: Option<Seq<char>>,
) -> spec_fn(CallView) -> bool {
    |c: CallView|
        {
            &&& c.transport_mode == mode
            &&& match line {
                Some(l) => c.public_code == l,
                None => true,
            }
            &&& match destination {
                Some(dest) => match c.front_text {
                    Some(t) => contains_seq(t, dest),
                    None => false,
                },
                None => true,
            }
        }
}

/// The answer with only the departures that `pred` keeps, in their order;
/// everything else unchanged.
pub open spec fn filtered(
    r: Option<Option<StopPlaceView>>,
    pred: spec_fn(CallView) -> bool,
) -> Option<Option<StopPlaceView>> {
    match r {
        Some(Some(sp)) => Some(
            Some(
                StopPlaceView {
                    name: sp.name,
                    estimated_calls: sp.estimated_calls.filter(pred),
                },
            ),
        ),
        _ => r,
    }
}

pub open spec fn opt_view(o: Option<&str>) -> Option<Seq<char>> {
    match o {
        Some(s) => Some(s@),
        None => None,
    }
}

fn copy_string(s: &String) -> (r: String)
    ensures
        r@ == s@,
{
    String::from_str(s.as_str())
}

impl EstimatedCall {
    /// A copy of the departure.
    pub fn duplicate(&self) -> (c: Self)
        ensures
            c@ == self@,
    {
        EstimatedCall {
            expected_departure_time: copy_string(&self.expected_departure_time),
            destination_display: match &self.destination_display {
                Some(d) => Some(DestinationDisplay { front_text: copy_string(&d.front_text) }),
                None => None,
            },
            service_journey: ServiceJourney {
                line: Line {
                    public_code: copy_string(&self.service_journey.line.public_code),
                    transport_mode: copy_string(&self.service_journey.line.transport_mode),
                },
            },
        }
    }
}

/// Whether a departure is of the mode, on the line (when one is given) and
/// towards a destination whose text contains `destination` (when given).
pub fn call_is_kept(
    call: &EstimatedCall,
    mode: &str,
    line: Option<&str>,
    destination: Option<&str>,
) -> (r: bool)
    ensures
        r == keeps(mode@, opt_view(line), opt_view(destination))(call@),
{
    let is_mode = str_eq(call.service_journey.line.transport_mode.as_str(), mode);
    let is_line = match line {
        Some(l) => str_eq(call.service_journey.line.public_code.as_str(), l),
        None => true,
    };
    let to_destination = match destination {
        Some(dest) => match &call.destination_display {
            Some(d) => str_contains(d.front_text.as_str(), dest),
            None => false,
        },
        None => true,
    };
    is_mode && is_line && to_destination
}

/// The departures that `call_is_kept` keeps, in their order.
pub fn keep_calls(
    calls: &Vec<EstimatedCall>,
    mode: &str,
    line: Option<&str>,
    destination: Option<&str>,
) -> (r: Vec<EstimatedCall>)
    ensures
        r@.map_values(|c: EstimatedCall| c@) == calls@.map_values(|c: EstimatedCall| c@).filter(
            keeps(mode@, opt_view(line), opt_view(destination)),
        ),
{
    let ghost pred = keeps(mode@, opt_view(line), opt_view(destination));
    let ghost all = calls@.map_values(|c: EstimatedCall| c@);
    let mut kept: Vec<EstimatedCall> = Vec::new();
    let n = calls.len();
    proof {
        reveal_with_fuel(Seq::<_>::filter, 1);
        assert(all.take(0) =~= Seq::<CallView>::empty());
        assert(kept@.map_values(|c: EstimatedCall| c@) =~= all.take(0).filter(pred));
    }
    for i in 0..n
        invariant
            n == calls@.len(),
            all == calls@.map_values(|c: EstimatedCall| c@),
            pred == keeps(mode@, opt_view(line), opt_view(destination)),
            kept@.map_values(|c: EstimatedCall| c@) == all.take(i as int).filter(pred),
    {
        let call = &calls[i];
        let ghost before = kept@.map_values(|c: EstimatedCall| c@);
        if call_is_kept(call, mode, line, destination) {
            kept.push(call.duplicate());
            assert(kept@.map_values(|c: EstimatedCall| c@) =~= before.push(call@));
        } else {
            assert(kept@.map_values(|c: EstimatedCall| c@) =~= before);
        }
        proof {
            reveal_with_fuel(Seq::<_>::filter, 1);
            assert(all.take(i + 1).drop_last() =~= all.take(i as int));
            assert(all.take(i + 1).last() == call@);
        }
    }
    assert(all.take(n as int) =~= all);
    kept
}

/// The answer with its departures narrowed to those `call_is_kept` keeps.
pub fn keep_departures(
    response: &GraphQLResponse,
    mode: &str,
    line: Option<&str>,
    destination: Option<&str>,
) -> (r: GraphQLResponse)
    ensures
        r@ == filtered(response@, keeps(mode@, opt_view(line), opt_view(destination))),
{
    match &response.data {
        Some(data) => match &data.stop_place {
            Some(sp) => {
                let calls = keep_calls(&sp.estimated_calls, mode, line, destination);
                GraphQLResponse {
                    data: Some(
                        GraphQLData {
                            stop_place: Some(
                                StopPlace { name: copy_string(&sp.name), estimated_calls: calls },
                            ),
                        },
                    ),
                }
            },
            None => GraphQLResponse { data: Some(GraphQLData { stop_place: None }) },
        },
        None => GraphQLResponse { data: None },
    }
}

/// The departures the tram filter keeps.
pub open spec fn tram_filter(destination: Option<Seq<char>>) -> spec_fn(CallView) -> bool {
    keeps("tram"@, None, destination)
}

/// The departures the bus filter of a stop keeps.
pub open spec fn bus_filter(destination: Option<Seq<char>>) -> spec_fn(CallView) -> bool {
    keeps("bus"@, None, destination)
}

/// The departures the bus filter of a line keeps.
pub open spec fn bus_line_filter(line: Seq<char>, destination: Option<Seq<char>>) -> spec_fn(
    CallView,
) -> bool {
    keeps("bus"@, Some(line), destination)
}

/// Tram departures, optionally only those whose destination contains
/// `destination`.
pub fn keep_tram_departures(response: &GraphQLResponse, destination: Option<&str>) -> (r:
    GraphQLResponse)
    ensures
        r@ == filtered(response@, tram_filter(opt_view(destination))),
{
    keep_departures(response, "tram", None, destination)
}

/// Bus departures, optionally only those whose destination contains
/// `destination`.
pub fn keep_bus_departures_by_stop(response: &GraphQLResponse, destination: Option<&str>) -> (r:
    GraphQLResponse)
    ensures
        r@ == filtered(response@, bus_filter(opt_view(destination))),
{
    keep_departures(response, "bus", None, destination)
}

/// Bus departures of line `line_number`, optionally only those whose
/// destination contains `destination`.
pub fn keep_bus_departures_by_line(
    response: &GraphQLResponse,
    line_number: &str,
    destination: Option<&str>,
) -> (r: GraphQLResponse)
    ensures
        r@ == filtered(response@, bus_line_filter(line_number@, opt_view(destination))),
{
    keep_departures(response, "bus", Some(line_number), destination)
}

proof fn lemma_filter_twice<A>(s: Seq<A>, p: spec_fn(A) -> bool, q: spec_fn(A) -> bool)
    ensures
        s.filter(p).filter(q) == s.filter(|x: A| p(x) && q(x)),
    decreases s.len(),
{
    reveal_with_fuel(Seq::<_>::filter, 1);
    if s.len() > 0 {
        lemma_filter_twice(s.drop_last(), p, q);
        let both = |x: A| p(x) && q(x);
        assert(s.filter(both) == if both(s.last()) {
            s.drop_last().filter(both).push(s.last())
        } else {
            s.drop_last().filter(both)
        });
        if p(s.last()) {
            let ps = s.filter(p);
            assert(ps == s.drop_last().filter(p).push(s.last()));
            assert(ps.drop_last() =~= s.drop_last().filter(p));
        }
    }
}

/// The departures of one bus line are the stop's bus departures that run on
/// that line: filtering by line keeps exactly those of the stop's filter
/// whose public code is the line's.
pub proof fn lemma_line_departures_refine_stop_departures(
    r: Option<Option<StopPlaceView>>,
    line: Seq<char>,
    destination: Option<Seq<char>>,
)
    ensures
        filtered(r, bus_line_filter(line, destination)) == filtered(
            filtered(r, bus_filter(destination)),
            |c: CallView| c.public_code == line,
        ),
{
    let p = bus_filter(destination);
    let q = |c: CallView| c.public_code == line;
    assert(bus_line_filter(line, destination) =~= (|x: CallView| p(x) && q(x)));
    match r {
        Some(Some(sp)) => {
            lemma_filter_twice(sp.estimated_calls, p, q);
        },
        _ => {},
    }
}

/// A departure survives a filter exactly when it is of the requested
/// transport mode, runs on the requested line (when one is given), and, when
/// a destination is given, its destination text holds that text somewhere
/// as a run of consecutive characters (not only at the start).
pub proof fn lemma_departure_kept_iff(
    calls: Seq<CallView>,
    c: CallView,
    mode: Seq<char>,
    line: Option<Seq<char>>,
    destination: Option<Seq<char>>,
)
    requires
        calls.contains(c),
    ensures
        calls.filter(keeps(mode, line, destination)).contains(c) <==> {
            &&& c.transport_mode == mode
            &&& (line matches Some(l) ==> c.public_code == l)
            &&& (destination matches Some(dest) ==> (c.front_text matches Some(t) && exists|
                i: int,
            |
                0 <= i && i + dest.len() <= t.len() && #[trigger] t.subrange(i, i + dest.len())
                    == dest))
        },
{
    let pred = keeps(mode, line, destination);
    let k = choose|k: int| 0 <= k < calls.len() && calls[k] == c;
    if pred(c) {
        calls.lemma_filter_contains(pred, k);
    }
    if calls.filter(pred).contains(c) {
        let j = choose|j: int| 0 <= j < calls.filter(pred).len() && calls.filter(pred)[j] == c;
        calls.lemma_filter_pred(pred, j);
    }
    if let Some(dest) = destination {
        if let Some(t) = c.front_text {
            if exists|i: int|
                0 <= i && i + dest.len() <= t.len() && #[trigger] t.subrange(i, i + dest.len())
                    == dest {
                let i = choose|i: int|
                    0 <= i && i + dest.len() <= t.len() && #[trigger] t.subrange(i, i + dest.len())
                        == dest;
                assert(occurs_at(t, dest, i));
            }
            if contains_seq(t, dest) {
                let i = choose|i: int| #[trigger] occurs_at(t, dest, i);
                assert(t.subrange(i, i + dest.len()) == dest);
            }
        }
    }
}

/// The same, for the answer the transit filters return: when the service
/// sent a stop place, a departure of that stop is in the filtered answer
/// exactly under the conditions of `lemma_departure_kept_iff`, and the stop
/// keeps its name.
pub proof fn lemma_filtered_answer_keeps(
    sp: StopPlaceView,
    c: CallView,
    mode: Seq<char>,
    line: Option<Seq<char>>,
    destination: Option<Seq<char>>,
)
    requires
        sp.estimated_calls.contains(c),
    ensures
        filtered(Some(Some(sp)), keeps(mode, line, destination)) matches Some(Some(out)) && out.name
            == sp.name && (out.estimated_calls.contains(c) <==> {
            &&& c.transport_mode == mode
            &&& (line matches Some(l) ==> c.public_code == l)
            &&& (destination matches Some(dest) ==> (c.front_text matches Some(t) && exists|
                i: int,
            |
                0 <= i && i + dest.len() <= t.len() && #[trigger] t.subrange(i, i + dest.len())
                    == dest))
        }),
{
    lemma_departure_kept_iff(sp.estimated_calls, c, mode, line, destination);
}

/// The tram and bus filters never keep the same departure: what the tram
/// filter keeps runs as `tram`, what either bus filter keeps runs as `bus`,
/// and the line filter keeps only departures of that line that the stop's
/// bus filter keeps too.
pub proof fn lemma_mode_filters_are_disjoint(
    c: CallView,
    line: Seq<char>,
    d1: Option<Seq<char>>,
    d2: Option<Seq<char>>,
)
    ensures
        tram_filter(d1)(c) ==> c.transport_mode == "tram"@,
        bus_filter(d1)(c) ==> c.transport_mode == "bus"@,
        bus_line_filter(line, d1)(c) ==> c.transport_mode == "bus"@ && c.public_code == line
            && bus_filter(d1)(c),
        !(tram_filter(d1)(c) && bus_filter(d2)(c)),
        !(tram_filter(d1)(c) && bus_line_filter(line, d2)(c)),
{
    reveal_strlit("tram");
    reveal_strlit("bus");
    assert("tram"@ != "bus"@) by {
        assert("tram"@.len() != "bus"@.len());
    }
}

} // verus!
