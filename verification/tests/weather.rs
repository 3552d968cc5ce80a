use son_of_anton::app_error::{http_failure, is_success_status, AppError};
use son_of_anton::tools::weather::{coordinates_url, first_coordinates, forecast_url, Coordinates};

#[test]
fn urls() {
    assert_eq!(
        coordinates_url("https://nominatim.example", "Oslo", "Norway"),
        "https://nominatim.example/search?q=Oslo,Norway&format=json&limit=1"
    );
    assert_eq!(
        forecast_url("https://met.example/weatherapi", "59.9133301", "10.7389701"),
        "https://met.example/weatherapi/compact?lat=59.9133301&lon=10.7389701"
    );
}

#[test]
fn first_match_wins() {
    let coords = vec![
        Coordinates { lat: "59.9133301".to_string(), lon: "10.7389701".to_string() },
        Coordinates { lat: "1".to_string(), lon: "2".to_string() },
    ];
    match first_coordinates(coords) {
        Ok((lat, lon)) => {
            assert_eq!("59.9133301", lat);
            assert_eq!("10.7389701", lon);
        }
        Err(_) => panic!("a match was given"),
    }
}

#[test]
fn no_match_is_not_found() {
    match first_coordinates(Vec::new()) {
        Err(AppError::Http(code, msg)) => {
            assert_eq!(code, 404);
            assert_eq!(msg, "Coordinates not found for location");
        }
        _ => panic!("expected a 404"),
    }
}

#[test]
fn success_statuses() {
    assert!(!is_success_status(199));
    assert!(is_success_status(200));
    assert!(is_success_status(204));
    assert!(is_success_status(299));
    assert!(!is_success_status(300));
    assert!(!is_success_status(404));
    assert!(!is_success_status(500));
}

#[test]
fn failures_carry_body() {
    match http_failure(503, Some("down".to_string())) {
        AppError::Http(c, b) => {
            assert_eq!(c, 503);
            assert_eq!(b, "down");
        }
        _ => panic!(),
    }
    match http_failure(500, None) {
        AppError::Http(c, b) => {
            assert_eq!(c, 500);
            assert_eq!(b, "Empty body");
        }
        _ => panic!(),
    }
}
