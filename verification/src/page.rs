//! What is shown for a fetch: a row of links for each place, or the reason
//! why there are none.
//!
//! Nothing here draws anything. [`fetch_example`] computes the texts, and the
//! caller puts them on the screen.

use crate::decimal::{decimal_text, integer_text, integer_to_text};
use crate::fetch::{BathroomError, QueryResult, QueryResultView};
use crate::location::LocationErrorKind;
use crate::overpass::{views_of, PointOfInterest, PointOfInterestView};
use vstd::prelude::*;

verus! {

/// Where a node is shown on the map; the node's identifier follows.
pub const NODE_LINK: &'static str = "https://www.openstreetmap.org/node/";

/// What a node's link reads before the node's identifier.
pub const NODE_LABEL: &'static str = "OSM:";

/// Where directions are shown; the destination's latitude, a comma and its
/// longitude follow.
pub const DIRECTIONS_LINK: &'static str = "https://www.google.com/maps/dir/?api=1&destination=";

/// The texts of one place's row.
#[derive(Clone, Debug, PartialEq, Eq)]
pub struct Row {
    /// The address of the node on the map.
    pub node_link: String,
    /// The words of that link.
    pub node_label: String,
    /// The address of the directions to the place.
    pub directions_link: String,
}

/// What is shown for a fetch.
#[derive(Clone, Debug, PartialEq, Eq)]
pub enum Page {
    /// The fetch is still under way.
    Loading,
    /// The fetch failed, with the message to show.
    Failed(String),
    /// The fetch succeeded, with one row for each place, in order.
    Listing(Vec<Row>),
}

/// A row as a mathematical value.
pub ghost struct RowView {
    pub node_link: Seq<char>,
    pub node_label: Seq<char>,
    pub directions_link: Seq<char>,
}

/// A page as a mathematical value.
pub ghost enum PageView {
    Loading,
    Failed(Seq<char>),
    Listing(Seq<RowView>),
}

impl View for Row {
    type V = RowView;

    open spec fn view(&self) -> RowView {
        RowView {
            node_link: self.node_link@,
            node_label: self.node_label@,
            directions_link: self.directions_link@,
        }
    }
}

impl View for Page {
    type V = PageView;

    open spec fn view(&self) -> PageView {
        match self {
            Page::Loading => PageView::Loading,
            Page::Failed(message) => PageView::Failed(message@),
            Page::Listing(rows) => PageView::Listing(Seq::new(rows@.len(), |i: int| rows@[i]@)),
        }
    }
}

/// The message that is shown for an error.
pub open spec fn message_text(error: BathroomError) -> Seq<char> {
    match error {
        BathroomError::FetchBathroomsFailed => "Failed to fetch bathrooms."@,
        BathroomError::Location(LocationErrorKind::Unsupported) => {
            "This device cannot tell its location."@
        },
        BathroomError::Location(LocationErrorKind::PermissionDenied) => {
            "Permission to use the location was denied."@
        },
        BathroomError::Location(LocationErrorKind::Unavailable) => {
            "The location is unavailable."@
        },
        BathroomError::Location(LocationErrorKind::Timeout) => {
            "Finding the location took too long."@
        },
    }
}

/// The row of a place: the map link and its label by the identifier, the
/// directions link by latitude and longitude.
pub open spec fn row_of(point: PointOfInterestView) -> RowView {
    RowView {
        node_link: NODE_LINK@ + integer_text(point.id),
        node_label: NODE_LABEL@ + integer_text(point.id),
        directions_link: DIRECTIONS_LINK@ + decimal_text(point.latitude) + ","@ + decimal_text(
            point.longitude,
        ),
    }
}

/// The page of a result; no result yet is a fetch under way.
pub open spec fn page_of(result: Option<QueryResultView>) -> PageView {
    match result {
        None => PageView::Loading,
        Some(QueryResultView::Errored(error)) => PageView::Failed(message_text(error)),
        Some(QueryResultView::Ready(points)) => PageView::Listing(
            Seq::new(points.len(), |i: int| row_of(points[i])),
        ),
    }
}

/// The view of an optional result.
pub open spec fn result_view(result: Option<&QueryResult>) -> Option<QueryResultView> {
    match result {
        None => None,
        Some(ready) => Some(ready@),
    }
}

impl BathroomError {
    /// The message that is shown for this error.
    pub fn message(&self) -> (text: String)
        ensures
            text@ == message_text(*self),
    {
        match self {
            BathroomError::FetchBathroomsFailed => String::from_str("Failed to fetch bathrooms."),
            BathroomError::Location(LocationErrorKind::Unsupported) => String::from_str(
                "This device cannot tell its location.",
            ),
            BathroomError::Location(LocationErrorKind::PermissionDenied) => String::from_str(
                "Permission to use the location was denied.",
            ),
            BathroomError::Location(LocationErrorKind::Unavailable) => String::from_str(
                "The location is unavailable.",
            ),
            BathroomError::Location(LocationErrorKind::Timeout) => String::from_str(
                "Finding the location took too long.",
            ),
        }
    }
}

impl PointOfInterest {
    /// The row of this place.
    pub fn row(&self) -> (row: Row)
        ensures
            row@ == row_of(self@),
    {
        let id = integer_to_text(self.id);
        let mut node_link = String::from_str(NODE_LINK);
        node_link.append(id.as_str());
        let mut node_label = String::from_str(NODE_LABEL);
        node_label.append(id.as_str());
        let mut directions_link = String::from_str(DIRECTIONS_LINK);
        directions_link.append(self.latitude.to_text().as_str());
        directions_link.append(",");
        directions_link.append(self.longitude.to_text().as_str());
        Row { node_link, node_label, directions_link }
    }
}

/// Lays a fetch out for showing: a notice while there is no result, the
/// error's message for a failed fetch, and one row for each place, in the
/// result's order, for a successful one.
pub fn fetch_example(result: Option<&QueryResult>) -> (page: Page)
    ensures
        page@ == page_of(result_view(result)),
{
    match result {
        None => Page::Loading,
        Some(QueryResult::Errored(error)) => Page::Failed(error.message()),
        Some(QueryResult::Ready(points)) => {
            let mut rows: Vec<Row> = Vec::new();
            let mut i: usize = 0;
            while i < points.len()
                invariant
                    i <= points.len(),
                    rows.len() == i,
                    forall|j: int| 0 <= j < i ==> (#[trigger] rows@[j])@ == row_of(points@[j]@),
                decreases points.len() - i,
            {
                rows.push(points[i].row());
                i += 1;
            }
            let page = Page::Listing(rows);
            assert(page@->Listing_0 =~= page_of(result_view(result))->Listing_0);
            page
        },
    }
}

} // verus!
