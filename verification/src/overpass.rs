//! The Overpass service: the query that is sent to it and the document that
//! comes back.
//!
//! The query asks for the nodes that carry one tag within a radius of a
//! centre. The document is held as it was decoded, every field present or
//! absent; [`points_of_interest`] accepts it only when each element has its
//! identifier, its position and its tags, and then keeps the elements' order.

use crate::decimal::{decimal_text, natural_text, natural_to_text, Decimal};
use crate::location::Coordinates;
use std::collections::HashMap;
use vstd::prelude::*;

verus! {

/// Where the queries go.
pub const ENDPOINT: &'static str = "https://overpass-api.de/api/interpreter";

/// The tag key that the wanted nodes carry.
pub const FILTER_KEY: &'static str = "amenity";

/// The value of that tag.
pub const FILTER_VALUE: &'static str = "toilets";

/// The search radius around the centre, in metres.
pub const SEARCH_RADIUS: u64 = 2000;

/// The generator's attribution block of a response.
#[derive(Clone, Debug, Default, PartialEq)]
pub struct Osm3s {
    pub copyright: Option<String>,
    pub timestamp_osm_base: Option<String>,
}

/// One element of a response, as decoded: what the document lacked is `None`.
#[derive(Clone, Debug, Default, PartialEq)]
pub struct Element {
    pub id: Option<i64>,
    pub lat: Option<Decimal>,
    pub lon: Option<Decimal>,
    pub tags: Option<HashMap<String, String>>,
    pub type_field: Option<String>,
}

/// A response document, as decoded. Only `elements` matters to the result;
/// the other fields are carried for whoever wants to show them.
#[derive(Clone, Debug, Default, PartialEq)]
pub struct OverpassResponse {
    pub elements: Option<Vec<Element>>,
    pub generator: Option<String>,
    pub osm3s: Option<Osm3s>,
    pub version: Option<Decimal>,
}

/// A place that the service found.
#[derive(Clone, Debug, PartialEq)]
pub struct PointOfInterest {
    pub id: i64,
    pub latitude: Decimal,
    pub longitude: Decimal,
    pub tags: HashMap<String, String>,
}

/// A place as a mathematical value: its identifier, its position in units of
/// 1e-7 degrees, and its tags.
pub ghost struct PointOfInterestView {
    pub id: int,
    pub latitude: int,
    pub longitude: int,
    pub tags: Map<String, String>,
}

impl View for PointOfInterest {
    type V = PointOfInterestView;

    open spec fn view(&self) -> PointOfInterestView {
        PointOfInterestView {
            id: self.id as int,
            latitude: self.latitude.units as int,
            longitude: self.longitude.units as int,
            tags: self.tags@,
        }
    }
}

/// The views of a sequence of places, in order.
pub open spec fn views_of(points: Seq<PointOfInterest>) -> Seq<PointOfInterestView> {
    Seq::new(points.len(), |i: int| points[i]@)
}

/// Whether an element has all that a place needs.
pub open spec fn complete(element: Element) -> bool {
    &&& element.id is Some
    &&& element.lat is Some
    &&& element.lon is Some
    &&& element.tags is Some
}

/// The place that a complete element describes.
pub open spec fn point_of(element: Element) -> PointOfInterestView
    recommends
        complete(element),
{
    PointOfInterestView {
        id: element.id->0 as int,
        latitude: element.lat->0.units as int,
        longitude: element.lon->0.units as int,
        tags: element.tags->0@,
    }
}

/// The places that a sequence of complete elements describes, in order.
pub open spec fn points_of(elements: Seq<Element>) -> Seq<PointOfInterestView> {
    Seq::new(elements.len(), |i: int| point_of(elements[i]))
}

/// Whether a document fits the schema: it has a list of elements, and every
/// element is complete.
pub open spec fn well_formed(document: OverpassResponse) -> bool {
    &&& document.elements is Some
    &&& forall|i: int|
        0 <= i < document.elements->0@.len() ==> complete(#[trigger] document.elements->0@[i])
}

/// The text of the query for the nodes tagged `key = value` within `radius`
/// metres of `center`.
pub open spec fn around_query_text(
    key: Seq<char>,
    value: Seq<char>,
    radius: nat,
    center: Coordinates,
) -> Seq<char> {
    ENDPOINT@ + "?data=[out:json];node[\""@ + key + "\"=\""@ + value + "\"](around:"@
        + natural_text(radius) + ","@ + decimal_text(center.latitude.units as int) + ","@
        + decimal_text(center.longitude.units as int) + ");out;"@
}

/// The text of the query for the public toilets around `center`.
pub open spec fn nearby_query_text(center: Coordinates) -> Seq<char> {
    around_query_text(FILTER_KEY@, FILTER_VALUE@, SEARCH_RADIUS as nat, center)
}

/// Builds the query for the nodes tagged `key = value` within `radius`
/// metres of `center`.
pub fn around_query(key: &str, value: &str, radius: u64, center: Coordinates) -> (url: String)
    ensures
        url@ == around_query_text(key@, value@, radius as nat, center),
{
    let mut url = String::from_str(ENDPOINT);
    url.append("?data=[out:json];node[\"");
    url.append(key);
    url.append("\"=\"");
    url.append(value);
    url.append("\"](around:");
    url.append(natural_to_text(radius).as_str());
    url.append(",");
    url.append(center.latitude.to_text().as_str());
    url.append(",");
    url.append(center.longitude.to_text().as_str());
    url.append(");out;");
    url
}

/// Builds the query for the public toilets around `center`: the fixed tag
/// and the fixed radius, with the centre's latitude and longitude.
pub fn nearby_query(center: Coordinates) -> (url: String)
    ensures
        url@ == nearby_query_text(center),
{
    around_query(FILTER_KEY, FILTER_VALUE, SEARCH_RADIUS, center)
}

/// The query for the public toilets, written out: the endpoint, the filter
/// `amenity = toilets`, the radius 2000, and then the centre's latitude and
/// longitude as decimals, whatever their sign and their fraction.
pub proof fn law_nearby_query_embeds_center(center: Coordinates)
    ensures
        nearby_query_text(center)
            == "https://overpass-api.de/api/interpreter?data=[out:json];node[\"amenity\"=\"toilets\"](around:2000,"@
            + decimal_text(center.latitude.units as int) + ","@ + decimal_text(
            center.longitude.units as int,
        ) + ");out;"@,
{
    reveal_strlit("https://overpass-api.de/api/interpreter");
    reveal_strlit("?data=[out:json];node[\"");
    reveal_strlit("amenity");
    reveal_strlit("\"=\"");
    reveal_strlit("toilets");
    reveal_strlit("\"](around:");
    reveal_strlit(",");
    reveal_strlit(
        "https://overpass-api.de/api/interpreter?data=[out:json];node[\"amenity\"=\"toilets\"](around:2000,",
    );
    reveal_with_fuel(natural_text, 4);
    let head = ENDPOINT@ + "?data=[out:json];node[\""@ + FILTER_KEY@ + "\"=\""@ + FILTER_VALUE@
        + "\"](around:"@ + natural_text(SEARCH_RADIUS as nat) + ","@;
    assert(natural_text(2000) =~= seq!['2', '0', '0', '0']);
    assert(head
        =~= "https://overpass-api.de/api/interpreter?data=[out:json];node[\"amenity\"=\"toilets\"](around:2000,"@);
}

impl Element {
    /// The place that this element describes, if it is complete.
    pub fn to_point(&self) -> (point: Option<PointOfInterest>)
        ensures
            point is Some <==> complete(*self),
            point matches Some(p) ==> p@ == point_of(*self),
    {
        match (&self.id, &self.lat, &self.lon, &self.tags) {
            (Some(id), Some(lat), Some(lon), Some(tags)) => Some(
                PointOfInterest { id: *id, latitude: *lat, longitude: *lon, tags: tags.clone() },
            ),
            _ => None,
        }
    }
}

/// Reads the places out of a document. The answer is all of them, in the
/// document's order, or none at all: one incomplete element, or a missing
/// list, rejects the whole document.
pub fn points_of_interest(document: &OverpassResponse) -> (points: Option<Vec<PointOfInterest>>)
    ensures
        points is Some <==> well_formed(*document),
        points matches Some(found) ==> views_of(found@) == points_of(document.elements->0@),
{
    match &document.elements {
        None => None,
        Some(elements) => {
            let mut found: Vec<PointOfInterest> = Vec::new();
            let mut i: usize = 0;
            while i < elements.len()
                invariant
                    document.elements == Some(*elements),
                    i <= elements.len(),
                    found.len() == i,
                    forall|j: int| 0 <= j < i ==> complete(#[trigger] elements@[j]),
                    forall|j: int| 0 <= j < i ==> (#[trigger] found@[j])@ == point_of(elements@[j]),
                decreases elements.len() - i,
            {
                match elements[i].to_point() {
                    Some(point) => {
                        found.push(point);
                    },
                    None => {
                        assert(!complete(document.elements->0@[i as int]));
                        return None;
                    },
                }
                i += 1;
            }
            assert(views_of(found@) =~= points_of(elements@));
            Some(found)
        },
    }
}

} // verus!
