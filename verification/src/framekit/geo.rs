use vstd::prelude::*;
use crate::framekit::fingerprint::device::text_of;
use crate::json::{json_get, Json};
use crate::structs::eventos::GeoPayload;
use crate::text::{clone_opt_string, opt_text, text_or_empty};

verus! {

/// Where an event came from.  `key` joins country, region, city and time
/// zone with `|`; coordinates are double bit patterns.
pub struct ParsedGeo {
    pub key: String,
    pub country: Option<String>,
    pub region: Option<String>,
    pub city: Option<String>,
    pub timezone: Option<String>,
    pub latitude: Option<u64>,
    pub longitude: Option<u64>,
}

/// The lookup key of a place: `country|region|city|timezone`, a missing
/// part written as empty.
pub open spec fn geo_key(
    country: Option<Seq<char>>,
    region: Option<Seq<char>>,
    city: Option<Seq<char>>,
    timezone: Option<Seq<char>>,
) -> Seq<char> {
    text_or_empty(country) + "|"@ + text_or_empty(region) + "|"@ + text_or_empty(city) + "|"@
        + text_or_empty(timezone)
}

fn header_text(headers: &Json, key: &str) -> (r: Option<String>)
    ensures
        opt_text(r) == text_of(json_get(*headers, key@)),
{
    match headers.get(key) {
        Some(v) => match v.as_str() {
            Some(s) => Some(s.to_owned()),
            None => None,
        },
        None => None,
    }
}

fn append_opt(out: &mut String, o: &Option<String>)
    ensures
        final(out)@ == old(out)@ + text_or_empty(opt_text(*o)),
{
    match o {
        Some(s) => out.append(s.as_str()),
        None => {
            assert(old(out)@ + Seq::<char>::empty() =~= old(out)@);
        },
    }
}

/// What working out the place of an event gives: the client's own report
/// where it sent one, else the `x-geo-*` headers (without coordinates); and
/// the key of the place.
pub open spec fn geo_info_is(r: ParsedGeo, geo: Option<GeoPayload>, headers: Json) -> bool {
    &&& match geo {
        Some(g) => {
            &&& opt_text(r.country) == opt_text(g.country)
            &&& opt_text(r.region) == opt_text(g.region)
            &&& opt_text(r.city) == opt_text(g.city)
            &&& opt_text(r.timezone) == opt_text(g.timezone)
            &&& r.latitude == g.latitude
            &&& r.longitude == g.longitude
        },
        None => {
            &&& opt_text(r.country) == text_of(json_get(headers, "x-geo-country"@))
            &&& opt_text(r.region) == text_of(json_get(headers, "x-geo-region"@))
            &&& opt_text(r.city) == text_of(json_get(headers, "x-geo-city"@))
            &&& opt_text(r.timezone) == text_of(json_get(headers, "x-geo-timezone"@))
            &&& r.latitude is None
            &&& r.longitude is None
        },
    }
    &&& r.key@ == geo_key(opt_text(r.country), opt_text(r.region), opt_text(r.city), opt_text(r.timezone))
}

/// The key of a place is its four parts joined by `|`, a missing part written
/// as empty: where the client sent a report, those are the report's country,
/// region, city and time zone, in that order.
pub proof fn lemma_geo_key_parts(r: ParsedGeo, geo: Option<GeoPayload>, headers: Json)
    requires
        geo_info_is(r, geo, headers),
    ensures
        ({
            let part = |o: Option<String>| match o {
                Some(s) => s@,
                None => Seq::<char>::empty(),
            };
            &&& r.key@ == part(r.country) + seq!['|'] + part(r.region) + seq!['|'] + part(r.city) + seq!['|']
                + part(r.timezone)
            &&& (geo matches Some(g) ==> r.key@ == part(g.country) + seq!['|'] + part(g.region) + seq!['|']
                + part(g.city) + seq!['|'] + part(g.timezone))
        }),
{
    reveal_strlit("|");
    let part = |o: Option<String>| match o {
        Some(s) => s@,
        None => Seq::<char>::empty(),
    };
    assert(text_or_empty(opt_text(r.country)) == part(r.country));
    assert(text_or_empty(opt_text(r.region)) == part(r.region));
    assert(text_or_empty(opt_text(r.city)) == part(r.city));
    assert(text_or_empty(opt_text(r.timezone)) == part(r.timezone));
    if let Some(g) = geo {
        assert(part(g.country) == part(r.country));
        assert(part(g.region) == part(r.region));
        assert(part(g.city) == part(r.city));
        assert(part(g.timezone) == part(r.timezone));
    }
}

/// Works out where an event came from: the client's own report where it
/// sent one, else the `x-geo-*` headers (which carry no coordinates).
pub fn extract_geo_info(geo: &Option<GeoPayload>, headers: &Json) -> (r: ParsedGeo)
    ensures
        geo_info_is(r, *geo, *headers),
{
    let (country, region, city, timezone, latitude, longitude) = match geo {
        Some(g) => (
            clone_opt_string(&g.country),
            clone_opt_string(&g.region),
            clone_opt_string(&g.city),
            clone_opt_string(&g.timezone),
            g.latitude,
            g.longitude,
        ),
        None => (
            header_text(headers, "x-geo-country"),
            header_text(headers, "x-geo-region"),
            header_text(headers, "x-geo-city"),
            header_text(headers, "x-geo-timezone"),
            None,
            None,
        ),
    };
    let mut key = String::new();
    append_opt(&mut key, &country);
    key.append("|");
    append_opt(&mut key, &region);
    key.append("|");
    append_opt(&mut key, &city);
    key.append("|");
    append_opt(&mut key, &timezone);
    assert(key@ =~= geo_key(opt_text(country), opt_text(region), opt_text(city), opt_text(timezone)));
    ParsedGeo { key, country, region, city, timezone, latitude, longitude }
}

} // verus!
