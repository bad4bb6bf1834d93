use bathrooms::decimal::Decimal;
use bathrooms::fetch::{BathroomError, QueryResult};
use bathrooms::location::LocationErrorKind;
use bathrooms::overpass::PointOfInterest;
use bathrooms::page::{fetch_example, Page, Row, DIRECTIONS_LINK, NODE_LABEL, NODE_LINK};
use std::collections::HashMap;

fn point(id: i64, lat: i64, lon: i64) -> PointOfInterest {
    PointOfInterest {
        id,
        latitude: Decimal::new(lat),
        longitude: Decimal::new(lon),
        tags: HashMap::new(),
    }
}

#[test]
fn no_result_yet_is_loading() {
    assert_eq!(fetch_example(None), Page::Loading);
}

#[test]
fn a_failed_fetch_shows_its_message() {
    let failed = QueryResult::Errored(BathroomError::FetchBathroomsFailed);
    assert_eq!(
        fetch_example(Some(&failed)),
        Page::Failed("Failed to fetch bathrooms.".to_string())
    );
}

#[test]
fn every_error_has_its_own_message() {
    let errors = [
        BathroomError::FetchBathroomsFailed,
        BathroomError::Location(LocationErrorKind::Unsupported),
        BathroomError::Location(LocationErrorKind::PermissionDenied),
        BathroomError::Location(LocationErrorKind::Unavailable),
        BathroomError::Location(LocationErrorKind::Timeout),
    ];
    assert_eq!(errors[0].message(), "Failed to fetch bathrooms.");
    assert_eq!(errors[1].message(), "This device cannot tell its location.");
    assert_eq!(errors[2].message(), "Permission to use the location was denied.");
    assert_eq!(errors[3].message(), "The location is unavailable.");
    assert_eq!(errors[4].message(), "Finding the location took too long.");
    for (i, a) in errors.iter().enumerate() {
        for (j, b) in errors.iter().enumerate() {
            assert_eq!(a.message() == b.message(), i == j);
        }
        assert_eq!(fetch_example(Some(&QueryResult::Errored(*a))), Page::Failed(a.message()));
    }
}

#[test]
fn a_row_links_to_the_node_and_to_directions() {
    assert_eq!(
        point(1, 123_410_000, 567_810_000).row(),
        Row {
            node_link: "https://www.openstreetmap.org/node/1".to_string(),
            node_label: "OSM:1".to_string(),
            directions_link: "https://www.google.com/maps/dir/?api=1&destination=12.341,56.781"
                .to_string(),
        }
    );
}

#[test]
fn a_row_of_a_negative_identifier_and_position() {
    assert_eq!(
        point(-42, -5_000_000, -1_800_000_000).row(),
        Row {
            node_link: "https://www.openstreetmap.org/node/-42".to_string(),
            node_label: "OSM:-42".to_string(),
            directions_link: "https://www.google.com/maps/dir/?api=1&destination=-0.5,-180"
                .to_string(),
        }
    );
}

#[test]
fn a_listing_has_one_row_for_each_place_in_order() {
    let ready = QueryResult::Ready(vec![
        point(1, 123_410_000, 567_810_000),
        point(2, 123_420_000, 567_820_000),
        point(1, 123_410_000, 567_810_000),
    ]);
    let first = point(1, 123_410_000, 567_810_000).row();
    let second = point(2, 123_420_000, 567_820_000).row();
    assert_eq!(fetch_example(Some(&ready)), Page::Listing(vec![first.clone(), second, first]));
}

#[test]
fn an_empty_result_is_an_empty_listing() {
    assert_eq!(fetch_example(Some(&QueryResult::Ready(vec![]))), Page::Listing(vec![]));
}

#[test]
fn the_link_constants() {
    assert_eq!(NODE_LINK, "https://www.openstreetmap.org/node/");
    assert_eq!(NODE_LABEL, "OSM:");
    assert_eq!(DIRECTIONS_LINK, "https://www.google.com/maps/dir/?api=1&destination=");
}
