//! The weather tool: where to ask for a place's coordinates and forecast, and
//! what to make of the geocoder's answer.

use vstd::prelude::*;
use vstd::string::*;
use crate::app_error::AppError;

verus! {

/// A place as the geocoder returns it.
pub struct Coordinates {
    pub lat: String,
    pub lon: String,
}

/// `<base>/search?q=<city>,<country>&format=json&limit=1`.
pub fn coordinates_url(base: &str, city: &str, country: &str) -> (u: String)
    ensures
        u@ == base@ + "/search?q="@ + city@ + ","@ + country@ + "&format=json&limit=1"@,
{
    let mut u = String::from_str(base);
    u.append("/search?q=");
    u.append(city);
    u.append(",");
    u.append(country);
    u.append("&format=json&limit=1");
    u
}

/// `<base>/compact?lat=<lat>&lon=<lon>`.
pub fn forecast_url(base: &str, lat: &str, lon: &str) -> (u: String)
    ensures
        u@ == base@ + "/compact?lat="@ + lat@ + "&lon="@ + lon@,
{
    let mut u = String::from_str(base);
    u.append("/compact?lat=");
    u.append(lat);
    u.append("&lon=");
    u.append(lon);
    u
}

/// The status reported when the geocoder knows no such place.
pub const NOT_FOUND: u16 = 404;

/// Latitude and longitude of the geocoder's first match; a 404 error when it
/// found none.
pub fn first_coordinates(coords: Vec<Coordinates>) -> (r: Result<(String, String), AppError>)
    ensures
        coords@.len() > 0 ==> (r matches Ok((lat, lon)) && lat@ == coords@[0].lat@ && lon@
            == coords@[0].lon@),
        coords@.len() == 0 ==> (r matches Err(AppError::Http(code, msg)) && code == NOT_FOUND
            && msg@ == "Coordinates not found for location"@),
{
    let mut coords = coords;
    if coords.len() == 0 {
        return Err(AppError::Http(NOT_FOUND, String::from_str("Coordinates not found for location")));
    }
    let first = coords.swap_remove(0);
    Ok((first.lat, first.lon))
}

} // verus!
