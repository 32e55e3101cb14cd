use vstd::prelude::*;

verus! {

/// One weather observation for the hour and day an entry is written.
///
/// Display-only quantities are carried as the already-rendered text the
/// remote API reported (visibility already converted to kilometres by the
/// caller); the two fields the workflows compute with are integers: the WMO
/// weather code, and the wind direction in hundredths of a degree so that
/// the 16-point compass boundaries (multiples of 11.25 degrees) stay exact.
#[derive(Clone, Debug, PartialEq)]
pub struct Weather {
    pub temperature: String,
    pub apparent_temperature: String,
    pub weather_code: u64,
    pub rain: String,
    pub windspeed: String,
    /// Wind direction in hundredths of a degree clockwise from north.
    pub winddirection: u64,
    pub pressure: String,
    pub humidity: String,
    pub visibility_km: String,
    pub uv_index: String,
    pub sunrise: String,
    pub sunset: String,
}

/// The fixed table from WMO weather code to a short English description;
/// codes outside the table read "Unknown conditions".
pub open spec fn spec_weather_description(code: u64) -> Seq<char> {
    if code == 0 {
        "Clear skies"@
    } else if code == 1 {
        "Mainly clear skies"@
    } else if code == 2 {
        "Partly cloudy skies"@
    } else if code == 3 {
        "Overcast skies"@
    } else if code == 45 {
        "Fog"@
    } else if code == 48 {
        "Fog"@
    } else if code == 51 {
        "Light drizzle"@
    } else if code == 53 {
        "Moderate drizzle"@
    } else if code == 55 {
        "Heavy drizzle"@
    } else if code == 56 {
        "Light drizzle, freezing"@
    } else if code == 57 {
        "Moderate or heavy drizzle, freezing"@
    } else if code == 61 {
        "Light rain"@
    } else if code == 63 {
        "Moderate rain"@
    } else if code == 65 {
        "Heavy rain"@
    } else if code == 66 {
        "Light rain, freezing"@
    } else if code == 67 {
        "Moderate or heavy rain, freezing"@
    } else if code == 71 {
        "Snow fall: Slight intensity"@
    } else if code == 73 {
        "Snow fall: Moderate intensity"@
    } else if code == 75 {
        "Snow fall: Heavy intensity"@
    } else if code == 77 {
        "Snow grains"@
    } else if code == 80 {
        "Light rain showers"@
    } else if code == 81 {
        "Moderate rain showers"@
    } else if code == 82 {
        "Violent rainshowers"@
    } else if code == 85 {
        "Snow showers: Slight intensity"@
    } else if code == 86 {
        "Snow showers: Heavy intensity"@
    } else if code == 95 {
        "Thunderstorm: Slight or moderate"@
    } else if code == 96 {
        "Thunderstorm with slight hail"@
    } else if code == 99 {
        "Thunderstorm with heavy hail"@
    } else {
        "Unknown conditions"@
    }
}

/// Looks a weather code up in the fixed description table.
pub fn weather_description(code: u64) -> (r: String)
    ensures
        r@ == spec_weather_description(code),
{
    if code == 0 {
        String::from_str("Clear skies")
    } else if code == 1 {
        String::from_str("Mainly clear skies")
    } else if code == 2 {
        String::from_str("Partly cloudy skies")
    } else if code == 3 {
        String::from_str("Overcast skies")
    } else if code == 45 {
        String::from_str("Fog")
    } else if code == 48 {
        String::from_str("Fog")
    } else if code == 51 {
        String::from_str("Light drizzle")
    } else if code == 53 {
        String::from_str("Moderate drizzle")
    } else if code == 55 {
        String::from_str("Heavy drizzle")
    } else if code == 56 {
        String::from_str("Light drizzle, freezing")
    } else if code == 57 {
        String::from_str("Moderate or heavy drizzle, freezing")
    } else if code == 61 {
        String::from_str("Light rain")
    } else if code == 63 {
        String::from_str("Moderate rain")
    } else if code == 65 {
        String::from_str("Heavy rain")
    } else if code == 66 {
        String::from_str("Light rain, freezing")
    } else if code == 67 {
        String::from_str("Moderate or heavy rain, freezing")
    } else if code == 71 {
        String::from_str("Snow fall: Slight intensity")
    } else if code == 73 {
        String::from_str("Snow fall: Moderate intensity")
    } else if code == 75 {
        String::from_str("Snow fall: Heavy intensity")
    } else if code == 77 {
        String::from_str("Snow grains")
    } else if code == 80 {
        String::from_str("Light rain showers")
    } else if code == 81 {
        String::from_str("Moderate rain showers")
    } else if code == 82 {
        String::from_str("Violent rainshowers")
    } else if code == 85 {
        String::from_str("Snow showers: Slight intensity")
    } else if code == 86 {
        String::from_str("Snow showers: Heavy intensity")
    } else if code == 95 {
        String::from_str("Thunderstorm: Slight or moderate")
    } else if code == 96 {
        String::from_str("Thunderstorm with slight hail")
    } else if code == 99 {
        String::from_str("Thunderstorm with heavy hail")
    } else {
        String::from_str("Unknown conditions")
    }
}

/// The 16-point compass sector a wind direction falls in: sectors are 22.5
/// degrees (2250 hundredths) wide and centred on the principal directions,
/// so a direction exactly on a sector boundary rounds up to the next label.
pub open spec fn spec_direction_sector(centi_deg: u64) -> int {
    (((centi_deg % 36000) + 1125) / 2250) % 16
}

/// The compass label for a wind direction given in hundredths of a degree.
pub open spec fn spec_direction(centi_deg: u64) -> Seq<char> {
    let sector = spec_direction_sector(centi_deg);
    if sector == 0 {
        "N"@
    } else if sector == 1 {
        "NNE"@
    } else if sector == 2 {
        "NE"@
    } else if sector == 3 {
        "ENE"@
    } else if sector == 4 {
        "E"@
    } else if sector == 5 {
        "ESE"@
    } else if sector == 6 {
        "SE"@
    } else if sector == 7 {
        "SSE"@
    } else if sector == 8 {
        "S"@
    } else if sector == 9 {
        "SSW"@
    } else if sector == 10 {
        "SW"@
    } else if sector == 11 {
        "WSW"@
    } else if sector == 12 {
        "W"@
    } else if sector == 13 {
        "WNW"@
    } else if sector == 14 {
        "NW"@
    } else {
        "NNW"@
    }
}

/// Buckets a wind direction (hundredths of a degree) into the fixed 16-point
/// compass label printed in an entry's preamble.
pub fn get_direction(centi_deg: u64) -> (r: String)
    ensures
        r@ == spec_direction(centi_deg),
{
    let sector: u64 = (((centi_deg % 36000) + 1125) / 2250) % 16;
    if sector == 0 {
        String::from_str("N")
    } else if sector == 1 {
        String::from_str("NNE")
    } else if sector == 2 {
        String::from_str("NE")
    } else if sector == 3 {
        String::from_str("ENE")
    } else if sector == 4 {
        String::from_str("E")
    } else if sector == 5 {
        String::from_str("ESE")
    } else if sector == 6 {
        String::from_str("SE")
    } else if sector == 7 {
        String::from_str("SSE")
    } else if sector == 8 {
        String::from_str("S")
    } else if sector == 9 {
        String::from_str("SSW")
    } else if sector == 10 {
        String::from_str("SW")
    } else if sector == 11 {
        String::from_str("WSW")
    } else if sector == 12 {
        String::from_str("W")
    } else if sector == 13 {
        String::from_str("WNW")
    } else if sector == 14 {
        String::from_str("NW")
    } else {
        String::from_str("NNW")
    }
}

/// The time-series entry `time` belongs to the same date as `stamp`: both
/// start with the same ten characters, "YYYY-MM-DD".
pub open spec fn date_matches(time: Seq<char>, stamp: Seq<char>) -> bool {
    &&& time.len() >= 10
    &&& stamp.len() >= 10
    &&& time.subrange(0, 10) == stamp.subrange(0, 10)
}

/// The time-series entry `time` belongs to the same date and hour as
/// `stamp`: the dates agree and so do the two hour digits, skipping the
/// eleventh character, where the entry writes 'T' and the stamp a space.
pub open spec fn hour_matches(time: Seq<char>, stamp: Seq<char>) -> bool {
    &&& time.len() >= 13
    &&& stamp.len() >= 13
    &&& time.subrange(0, 10) == stamp.subrange(0, 10)
    &&& time.subrange(11, 13) == stamp.subrange(11, 13)
}

/// Whether two strings agree on the character range `from..to`.
fn seg_equal(a: &str, b: &str, from: usize, to: usize) -> (r: bool)
    requires
        from <= to,
        to <= a@.len(),
        to <= b@.len(),
    ensures
        r == (a@.subrange(from as int, to as int) == b@.subrange(from as int, to as int)),
{
    let mut j = from;
    while j < to
        invariant
            from <= j <= to,
            to <= a@.len(),
            to <= b@.len(),
            forall|k: int| from <= k < j ==> a@[k] == b@[k],
        decreases to - j,
    {
        if a.get_char(j) != b.get_char(j) {
            proof {
                if a@.subrange(from as int, to as int) == b@.subrange(from as int, to as int) {
                    assert(a@.subrange(from as int, to as int)[j - from] == a@[j as int]);
                    assert(b@.subrange(from as int, to as int)[j - from] == b@[j as int]);
                    assert(false);
                }
            }
            return false;
        }
        j += 1;
    }
    proof {
        assert(a@.subrange(from as int, to as int) =~= b@.subrange(from as int, to as int));
    }
    true
}

/// Whether one time-series entry matches the stamp's hour.
fn entry_hour_matches(time: &str, stamp: &str) -> (r: bool)
    ensures
        r == hour_matches(time@, stamp@),
{
    if time.unicode_len() < 13 || stamp.unicode_len() < 13 {
        return false;
    }
    seg_equal(time, stamp, 0, 10) && seg_equal(time, stamp, 11, 13)
}

/// Whether one time-series entry matches the stamp's date.
fn entry_date_matches(time: &str, stamp: &str) -> (r: bool)
    ensures
        r == date_matches(time@, stamp@),
{
    if time.unicode_len() < 10 || stamp.unicode_len() < 10 {
        return false;
    }
    seg_equal(time, stamp, 0, 10)
}

/// The index of the first entry of the hourly `time` array that matches the
/// requested stamp's date and hour, if any: the hourly fields of the
/// observation are taken from the parallel arrays at this index.
pub fn find_hour_index(times: &Vec<String>, stamp: &str) -> (r: Option<usize>)
    ensures
        r matches Some(i) ==> i < times@.len() && hour_matches(times@[i as int]@, stamp@) && (
        forall|j: int| 0 <= j < i ==> !hour_matches(times@[j]@, stamp@)),
        r is None ==> forall|j: int| 0 <= j < times@.len() ==> !hour_matches(times@[j]@, stamp@),
{
    let mut i: usize = 0;
    while i < times.len()
        invariant
            i <= times@.len(),
            forall|j: int| 0 <= j < i ==> !hour_matches(times@[j]@, stamp@),
        decreases times@.len() - i,
    {
        if entry_hour_matches(times[i].as_str(), stamp) {
            return Some(i);
        }
        i += 1;
    }
    None
}

/// The index of the first entry of the daily `time` array that matches the
/// requested stamp's date, if any: the daily fields of the observation are
/// taken from the parallel arrays at this index.
pub fn find_date_index(times: &Vec<String>, stamp: &str) -> (r: Option<usize>)
    ensures
        r matches Some(i) ==> i < times@.len() && date_matches(times@[i as int]@, stamp@) && (
        forall|j: int| 0 <= j < i ==> !date_matches(times@[j]@, stamp@)),
        r is None ==> forall|j: int| 0 <= j < times@.len() ==> !date_matches(times@[j]@, stamp@),
{
    let mut i: usize = 0;
    while i < times.len()
        invariant
            i <= times@.len(),
            forall|j: int| 0 <= j < i ==> !date_matches(times@[j]@, stamp@),
        decreases times@.len() - i,
    {
        if entry_date_matches(times[i].as_str(), stamp) {
            return Some(i);
        }
        i += 1;
    }
    None
}

/// The full preamble text an entry starts from, built from the rendered date,
/// the configured location name and one weather observation.
pub open spec fn spec_preamble(date: Seq<char>, location: Seq<char>, w: Weather) -> Seq<char> {
    "DATE: "@ + date + "\nLOCATION: "@ + location + "\n\nTemperature: "@ + w.temperature@
        + " C, feels like "@ + w.apparent_temperature@ + " C, "@ + spec_weather_description(
        w.weather_code,
    ) + ".\nUV Index: "@ + w.uv_index@ + "  Sunrise: "@ + w.sunrise@ + "   Sunset: "@ + w.sunset@
        + "\nRain: "@ + w.rain@ + " mm\nWinds: "@ + w.windspeed@ + " km/h "@ + spec_direction(
        w.winddirection,
    ) + "\nPressure: "@ + w.pressure@ + " hPa\nHumidity: "@ + w.humidity@ + "%\nVisibility: "@
        + w.visibility_km@ + " km\n"@
}

/// Renders the preamble exactly as `spec_preamble` lays it out.
pub fn render_preamble(date: &str, location: &str, w: &Weather) -> (r: String)
    ensures
        r@ == spec_preamble(date@, location@, *w),
{
    let mut s = String::from_str("DATE: ");
    s.append(date);
    s.append("\nLOCATION: ");
    s.append(location);
    s.append("\n\nTemperature: ");
    s.append(w.temperature.as_str());
    s.append(" C, feels like ");
    s.append(w.apparent_temperature.as_str());
    s.append(" C, ");
    let desc = weather_description(w.weather_code);
    s.append(desc.as_str());
    s.append(".\nUV Index: ");
    s.append(w.uv_index.as_str());
    s.append("  Sunrise: ");
    s.append(w.sunrise.as_str());
    s.append("   Sunset: ");
    s.append(w.sunset.as_str());
    s.append("\nRain: ");
    s.append(w.rain.as_str());
    s.append(" mm\nWinds: ");
    s.append(w.windspeed.as_str());
    s.append(" km/h ");
    let dir = get_direction(w.winddirection);
    s.append(dir.as_str());
    s.append("\nPressure: ");
    s.append(w.pressure.as_str());
    s.append(" hPa\nHumidity: ");
    s.append(w.humidity.as_str());
    s.append("%\nVisibility: ");
    s.append(w.visibility_km.as_str());
    s.append(" km\n");
    proof {
        assert(s@ =~= spec_preamble(date@, location@, *w));
    }
    s
}

} // verus!
