use vstd::prelude::*;

verus! {

/// One geocoding candidate.  Latitude and longitude are carried as the text
/// the workflows print and persist (the configuration file stores them as
/// strings), so no field needs more structure than text.
#[derive(Clone, Debug, PartialEq)]
pub struct Location {
    pub name: String,
    pub latitude: String,
    pub longitude: String,
    pub timezone: String,
    pub country_code: String,
    pub admin1: Option<String>,
    pub admin2: Option<String>,
    pub admin3: Option<String>,
    pub admin4: Option<String>,
}

/// The English short name that the ISO 3166-1 table assigns to an alpha-2
/// country code, or `None` when the code is not in the table.  The table is
/// fixed, so the result depends on the code alone.
pub uninterp spec fn country_name_of(code: Seq<char>) -> Option<Seq<char>>;

/// Relies on isocountry::CountryCode::for_alpha2 to look an alpha-2 code up
/// in the ISO 3166-1 table, and on CountryCode::name for the English short
/// name of the code found; both read fixed tables, so the result is a
/// function of the code alone, named `country_name_of`.
#[verifier::external_body]
fn lookup_country_name(code: &str) -> (r: Option<String>)
    ensures
        r is Some <==> country_name_of(code@) is Some,
        r matches Some(s) ==> country_name_of(code@) matches Some(v) && s@ == v,
{
    match isocountry::CountryCode::for_alpha2(code) {
        Ok(c) => Some(String::from(c.name())),
        Err(_) => None,
    }
}

/// An optional administrative subdivision as it appears in the display
/// string: the subdivision followed by a comma, or nothing.
pub open spec fn spec_admin_part(a: Option<String>) -> Seq<char> {
    match a {
        Some(s) => s@ + ", "@,
        None => Seq::<char>::empty(),
    }
}

/// The human-readable display string of a location: name, the administrative
/// subdivisions from the most local outward, the country's English short
/// name, the coordinates and the time zone.
pub open spec fn spec_location_display(l: Location, country: Seq<char>) -> Seq<char> {
    l.name@ + ", "@ + spec_admin_part(l.admin4) + spec_admin_part(l.admin3) + spec_admin_part(
        l.admin2,
    ) + spec_admin_part(l.admin1) + country + " ("@ + l.latitude@ + ", "@ + l.longitude@
        + ") with timezone '"@ + l.timezone@ + "'"@
}

/// Renders one administrative subdivision as it appears in the display
/// string.
fn admin_part(a: &Option<String>) -> (r: String)
    ensures
        r@ == spec_admin_part(*a),
{
    match a {
        Some(s) => {
            let mut t = s.clone();
            t.append(", ");
            t
        },
        None => String::new(),
    }
}

/// Renders the display string around an already-resolved country name.
pub fn display_with_country(l: &Location, country: &str) -> (r: String)
    ensures
        r@ == spec_location_display(*l, country@),
{
    let mut s = String::new();
    s.append(l.name.as_str());
    s.append(", ");
    let a4 = admin_part(&l.admin4);
    s.append(a4.as_str());
    let a3 = admin_part(&l.admin3);
    s.append(a3.as_str());
    let a2 = admin_part(&l.admin2);
    s.append(a2.as_str());
    let a1 = admin_part(&l.admin1);
    s.append(a1.as_str());
    s.append(country);
    s.append(" (");
    s.append(l.latitude.as_str());
    s.append(", ");
    s.append(l.longitude.as_str());
    s.append(") with timezone '");
    s.append(l.timezone.as_str());
    s.append("'");
    proof {
        assert(s@ =~= spec_location_display(*l, country@));
    }
    s
}

/// The display string of a location, or `None` when its country code is not
/// a known ISO 3166-1 alpha-2 code — that absence is a fatal display error
/// for the caller, never a silent fallback.
pub fn location_display(l: &Location) -> (r: Option<String>)
    ensures
        r is Some <==> country_name_of(l.country_code@) is Some,
        r matches Some(s) ==> country_name_of(l.country_code@) matches Some(cn) && s@
            == spec_location_display(*l, cn),
{
    match lookup_country_name(l.country_code.as_str()) {
        Some(cn) => Some(display_with_country(l, cn.as_str())),
        None => None,
    }
}

/// The geocoding query URL for a free-text location.
pub open spec fn spec_geocoding_url(query: Seq<char>) -> Seq<char> {
    "https://geocoding-api.open-meteo.com/v1/search?name="@ + query
}

/// Builds the URL the geocoding endpoint is asked for a free-text location.
pub fn geocoding_url(query: &str) -> (r: String)
    ensures
        r@ == spec_geocoding_url(query@),
{
    let mut s = String::from_str("https://geocoding-api.open-meteo.com/v1/search?name=");
    s.append(query);
    s
}

} // verus!
