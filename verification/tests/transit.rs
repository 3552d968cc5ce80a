use son_of_anton::tools::transit::{
    departures_query, journey_query, keep_bus_departures_by_line, keep_bus_departures_by_stop,
    keep_tram_departures, DestinationDisplay, EstimatedCall, GraphQLData, GraphQLResponse, Line,
    ServiceJourney, StopPlace,
};

fn call(time: &str, dest: Option<&str>, code: &str, mode: &str) -> EstimatedCall {
    EstimatedCall {
        expected_departure_time: time.to_string(),
        destination_display: dest.map(|d| DestinationDisplay { front_text: d.to_string() }),
        service_journey: ServiceJourney {
            line: Line { public_code: code.to_string(), transport_mode: mode.to_string() },
        },
    }
}

fn response() -> GraphQLResponse {
    GraphQLResponse {
        data: Some(GraphQLData {
            stop_place: Some(StopPlace {
                name: "Nationaltheatret".to_string(),
                estimated_calls: vec![
                    call("10:00", Some("Majorstuen"), "11", "tram"),
                    call("10:01", Some("Sognsvann"), "54", "bus"),
                    call("10:02", Some("Ljabru"), "19", "tram"),
                    call("10:03", None, "37", "bus"),
                    call("10:04", Some("Tonsenhagen"), "54", "bus"),
                    call("10:05", Some("Majorstuen via Bislett"), "17", "tram"),
                    call("10:06", Some("Sognsvann"), "2", "metro"),
                ],
            }),
        }),
    }
}

fn times(r: &GraphQLResponse) -> Vec<String> {
    r.data
        .as_ref()
        .unwrap()
        .stop_place
        .as_ref()
        .unwrap()
        .estimated_calls
        .iter()
        .map(|c| c.expected_departure_time.clone())
        .collect()
}

#[test]
fn departures_query_is_the_entur_query() {
    let id = "NSR:StopPlace:58366";
    let expected = format!(
        r#"{{
                stopPlace(id: "{}") {{
                    name
                    estimatedCalls(timeRange: 72100, numberOfDepartures: 10) {{
                        expectedDepartureTime
                        destinationDisplay {{
                            frontText
                        }}
                        serviceJourney {{
                            line {{
                                publicCode
                                transportMode
                            }}
                        }}
                    }}
                }}
            }}"#,
        id
    );
    assert_eq!(departures_query(id), expected);
}

#[test]
fn journey_query_is_the_entur_query() {
    let expected = format!(
        r#"{{
                trip(
                    from: {{
                        name: "{}"
                    }}
                    to: {{
                        name: "{}"
                    }}
                    numTripPatterns: 5
                ) {{
                    tripPatterns {{
                        duration
                        walkDistance
                        legs {{
                            mode
                            fromPlace {{
                                name
                            }}
                            toPlace {{
                                name
                            }}
                            expectedStartTime
                            expectedEndTime
                            line {{
                                publicCode
                            }}
                        }}
                    }}
                }}
            }}"#,
        "Torshov", "Birkelunden"
    );
    assert_eq!(journey_query("Torshov", "Birkelunden"), expected);
}

#[test]
fn trams_only() {
    let r = keep_tram_departures(&response(), None);
    assert_eq!(times(&r), vec!["10:00", "10:02", "10:05"]);
    assert_eq!(r.data.unwrap().stop_place.unwrap().name, "Nationaltheatret");
}

#[test]
fn trams_to_a_destination() {
    let r = keep_tram_departures(&response(), Some("Majorstuen"));
    assert_eq!(times(&r), vec!["10:00", "10:05"]);
    let r = keep_tram_departures(&response(), Some("Oslo S"));
    assert!(times(&r).is_empty());
}

#[test]
fn buses_at_stop() {
    let r = keep_bus_departures_by_stop(&response(), None);
    assert_eq!(times(&r), vec!["10:01", "10:03", "10:04"]);
    let r = keep_bus_departures_by_stop(&response(), Some("Sognsvann"));
    assert_eq!(times(&r), vec!["10:01"]);
}

#[test]
fn buses_of_a_line() {
    let r = keep_bus_departures_by_line(&response(), "54", None);
    assert_eq!(times(&r), vec!["10:01", "10:04"]);
    let r = keep_bus_departures_by_line(&response(), "54", Some("Tonsen"));
    assert_eq!(times(&r), vec!["10:04"]);
    let r = keep_bus_departures_by_line(&response(), "5", None);
    assert!(times(&r).is_empty());
}

#[test]
fn missing_data_passes_through() {
    let r = keep_tram_departures(&GraphQLResponse { data: None }, None);
    assert!(r.data.is_none());
    let r = keep_tram_departures(&GraphQLResponse { data: Some(GraphQLData { stop_place: None }) }, None);
    assert!(r.data.unwrap().stop_place.is_none());
}
