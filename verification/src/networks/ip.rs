//! Where an IP address is, and how to name the place.

use crate::networks::http::LookupError;
use vstd::prelude::*;
use vstd::string::*;

verus! {

/// Where the caller's own public address is looked up.
pub const IP_INFO_URL: &'static str = "http://ip-api.com/json/";

/// What the lookup of the caller's own public address reports. `N` is the
/// type in which the decoder hands over numbers; they are carried along and
/// never looked at.
#[derive(Debug)]
pub struct IPInfo<N> {
    /// Country.
    pub country: String,
    /// Name of the region.
    pub region_name: String,
    /// The public address that was looked up.
    pub query: String,
    /// Latitude.
    pub lat: N,
    /// Longitude.
    pub lon: N,
}

/// What a reverse lookup by address reports.
#[derive(Debug)]
pub struct IPAddress {
    /// Province.
    pub pro: String,
    /// City.
    pub city: String,
    /// Full address; the only field filled in for a place abroad.
    pub addr: String,
    /// Empty, `noprovince` (no province: a place abroad), `nocity` (no city:
    /// a municipality), or anything else.
    pub err: String,
}

/// What the weather service reports for a place. `N` is the type in which
/// the decoder hands over measurements.
#[derive(Debug)]
pub struct WeatherInfo<N> {
    /// The conditions, in the order given by the service.
    pub weather: Vec<Weather>,
    /// Temperature and humidity.
    pub main: Temperature<N>,
    /// Wind.
    pub wind: Wind<N>,
    /// When the data was computed, in seconds since the Unix epoch.
    pub dt: i64,
}

/// One weather condition.
#[derive(Debug)]
pub struct Weather {
    /// The condition in a word.
    pub main: String,
    /// The condition described in Chinese.
    pub desc: String,
}

/// Temperatures in degrees Celsius, and the humidity.
#[derive(Debug)]
pub struct Temperature<N> {
    /// Temperature.
    pub temp: N,
    /// Lowest temperature.
    pub temp_min: N,
    /// Highest temperature.
    pub temp_max: N,
    /// Humidity in per cent.
    pub humidity: N,
}

/// The wind.
#[derive(Debug)]
pub struct Wind<N> {
    /// Speed in metres per second.
    pub speed: N,
    /// Direction in degrees.
    pub deg: usize,
}

/// An [`IPAddress`] as sequences of characters.
pub struct IPAddressView {
    pub pro: Seq<char>,
    pub city: Seq<char>,
    pub addr: Seq<char>,
    pub err: Seq<char>,
}

/// What the `err` field says of the place.
pub enum PlaceKind {
    /// Province and city are both given.
    Domestic,
    /// A place abroad, known by its full address.
    Overseas,
    /// A municipality: a province without a city of its own.
    Municipality,
    /// None of the three.
    Unknown,
}

impl View for IPAddress {
    type V = IPAddressView;

    open spec fn view(&self) -> IPAddressView {
        IPAddressView { pro: self.pro@, city: self.city@, addr: self.addr@, err: self.err@ }
    }
}

impl IPAddressView {
    /// The kind of place, by exact match on `err`.
    pub open spec fn kind(self) -> PlaceKind {
        if self.err == ""@ {
            PlaceKind::Domestic
        } else if self.err == "noprovince"@ {
            PlaceKind::Overseas
        } else if self.err == "nocity"@ {
            PlaceKind::Municipality
        } else {
            PlaceKind::Unknown
        }
    }

    /// The name to show for the place.
    pub open spec fn name(self) -> Seq<char> {
        match self.kind() {
            PlaceKind::Domestic => self.pro + self.city,
            PlaceKind::Overseas => self.addr,
            PlaceKind::Municipality => self.pro,
            PlaceKind::Unknown => "Unknown"@,
        }
    }
}

impl IPAddress {
    /// The name to show for the place: province and city for a domestic
    /// address, the full address for one abroad, the province for a
    /// municipality, and `Unknown` otherwise.
    pub fn get_name(&self) -> (name: String)
        ensures
            name@ == self@.name(),
    {
        let empty = String::from_str("");
        let no_province = String::from_str("noprovince");
        let no_city = String::from_str("nocity");
        if self.err == empty {
            self.pro.clone().concat(self.city.as_str())
        } else if self.err == no_province {
            self.addr.clone()
        } else if self.err == no_city {
            self.pro.clone()
        } else {
            String::from_str("Unknown")
        }
    }
}

/// The URL at which `ip` is looked up: the fixed address of the service with
/// `ip` put in as it is.
pub open spec fn address_info_url_of(ip: Seq<char>) -> Seq<char> {
    "https://whois.pconline.com.cn/ipJson.jsp?ip="@ + ip + "&json=true"@
}

/// The URL at which the weather at a place is asked for: latitude, longitude
/// and the caller's key put into the fixed address of the service, each as it
/// is, with Chinese descriptions and metric units.
pub open spec fn weather_url_of(lat: Seq<char>, lon: Seq<char>, appid: Seq<char>) -> Seq<char> {
    "https://api.openweathermap.org/data/2.5/weather?lat="@ + lat + "&lon="@ + lon
        + "&lang=zh_cn&appid="@ + appid + "&units=metric"@
}

/// The URL to request for the place of `ip`. The text is not checked or
/// escaped.
pub fn address_info_url(ip: &str) -> (url: String)
    ensures
        url@ == address_info_url_of(ip@),
{
    String::from_str("https://whois.pconline.com.cn/ipJson.jsp?ip=").concat(ip).concat("&json=true")
}

/// The URL to request for the weather at a place. `lat` and `lon` are the
/// coordinates as they are to appear in the URL, `appid` the key of the
/// caller's account with the service.
pub fn weather_url(lat: &str, lon: &str, appid: &str) -> (url: String)
    ensures
        url@ == weather_url_of(lat@, lon@, appid@),
{
    String::from_str("https://api.openweathermap.org/data/2.5/weather?lat=").concat(lat).concat(
        "&lon=",
    ).concat(lon).concat("&lang=zh_cn&appid=").concat(appid).concat("&units=metric")
}

/// The caller's public address, if its lookup succeeded; why it failed is
/// dropped.
pub fn get_public_ip<N>(info: Result<IPInfo<N>, LookupError>) -> (ip: Option<String>)
    ensures
        ip == match info {
            Ok(found) => Some(found.query),
            Err(_) => None,
        },
{
    match info {
        Ok(found) => Some(found.query),
        Err(_) => None,
    }
}

/// Latitude and longitude of the caller's public address, if its lookup
/// succeeded; why it failed is dropped.
pub fn get_ip_lat_lon<N>(info: Result<IPInfo<N>, LookupError>) -> (place: Option<(N, N)>)
    ensures
        place == match info {
            Ok(found) => Some((found.lat, found.lon)),
            Err(_) => None,
        },
{
    match info {
        Ok(found) => Some((found.lat, found.lon)),
        Err(_) => None,
    }
}

/// The address of this machine on its local network, if the probe for it
/// succeeded; why it failed is dropped.
pub fn get_internal_ip(probe: Result<String, LookupError>) -> (ip: Option<String>)
    ensures
        ip == match probe {
            Ok(address) => Some(address),
            Err(_) => None,
        },
{
    match probe {
        Ok(address) => Some(address),
        Err(_) => None,
    }
}

/// The three values of `err` that are told apart differ from one another, so
/// each selects one kind of place and no other.
pub proof fn lemma_kinds_exclusive(a: IPAddressView)
    ensures
        a.err == ""@ <==> a.kind() == PlaceKind::Domestic,
        a.err == "noprovince"@ <==> a.kind() == PlaceKind::Overseas,
        a.err == "nocity"@ <==> a.kind() == PlaceKind::Municipality,
        (a.err != ""@ && a.err != "noprovince"@ && a.err != "nocity"@) <==> a.kind()
            == PlaceKind::Unknown,
{
    reveal_strlit("");
    reveal_strlit("noprovince");
    reveal_strlit("nocity");
    assert(""@.len() == 0 && "noprovince"@.len() == 10 && "nocity"@.len() == 6);
}

/// The name is decided by `err` alone among four cases: province followed by
/// city, the full address, the province, or the word `Unknown`.
pub proof fn lemma_name_by_err(a: IPAddressView)
    ensures
        a.err == ""@ ==> a.name() == a.pro + a.city,
        a.err == "noprovince"@ ==> a.name() == a.addr,
        a.err == "nocity"@ ==> a.name() == a.pro,
        (a.err != ""@ && a.err != "noprovince"@ && a.err != "nocity"@) ==> a.name() == "Unknown"@,
{
    lemma_kinds_exclusive(a);
}

/// Two addresses with the same four fields have the same name.
pub proof fn lemma_name_depends_on_fields(a: IPAddress, b: IPAddress)
    requires
        a.pro@ == b.pro@,
        a.city@ == b.city@,
        a.addr@ == b.addr@,
        a.err@ == b.err@,
    ensures
        a@.name() == b@.name(),
{
}

/// The name is not empty as long as the fields that it is made of are not:
/// province or city for a domestic address, the full address for one abroad,
/// the province for a municipality. For any other `err` it never is.
pub proof fn lemma_name_not_empty(a: IPAddressView)
    requires
        a.kind() == PlaceKind::Domestic ==> a.pro.len() + a.city.len() > 0,
        a.kind() == PlaceKind::Overseas ==> a.addr.len() > 0,
        a.kind() == PlaceKind::Municipality ==> a.pro.len() > 0,
    ensures
        a.name().len() > 0,
{
    reveal_strlit("Unknown");
    assert("Unknown"@.len() == 7);
}

} // verus!
