use vstd::prelude::*;

verus! {

#[verifier::external_type_specification]
#[verifier::external_body]
pub struct ExTz(chrono_tz::Tz);

/// Where a request came from, as the hosting platform resolved it. The record
/// carries it as it is and never reads it.
#[derive(PartialEq, Debug)]
pub struct Geolocation {
    pub time_zone: chrono_tz::Tz,
    /// The platform's data center that took the request.
    pub colo: String,
    pub country: Option<String>,
    pub city: Option<String>,
    pub continent: Option<String>,
    /// Latitude and longitude, as the bit patterns of the 32-bit floats that the
    /// platform reported.
    pub coordinates: Option<(u32, u32)>,
    pub postal_code: Option<String>,
    pub metro_code: Option<String>,
    pub region: Option<String>,
    pub region_code: Option<String>,
}

impl Geolocation {
    /// A geolocation that knows only the time zone and the data center.
    pub fn empty_with(time_zone: chrono_tz::Tz, colo: String) -> (r: Self)
        ensures
            r == (Geolocation {
                time_zone,
                colo,
                country: None,
                city: None,
                continent: None,
                coordinates: None,
                postal_code: None,
                metro_code: None,
                region: None,
                region_code: None,
            }),
    {
        Geolocation {
            time_zone,
            colo,
            country: None,
            city: None,
            continent: None,
            coordinates: None,
            postal_code: None,
            metro_code: None,
            region: None,
            region_code: None,
        }
    }
}

impl Clone for Geolocation {
    fn clone(&self) -> (r: Self)
        ensures
            r == *self,
    {
        Geolocation {
            time_zone: self.time_zone,
            colo: self.colo.clone(),
            country: self.country.clone(),
            city: self.city.clone(),
            continent: self.continent.clone(),
            coordinates: self.coordinates,
            postal_code: self.postal_code.clone(),
            metro_code: self.metro_code.clone(),
            region: self.region.clone(),
            region_code: self.region_code.clone(),
        }
    }
}

} // verus!
