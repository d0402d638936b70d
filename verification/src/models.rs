//! Request and answer shapes shared by the server's other interfaces: watchlists,
//! instruments, note kinds, and the buyable-quantity request.

use vstd::prelude::*;

verus! {

/// A request to create a watchlist.
#[derive(Debug, Clone)]
pub struct CreateWatchlistRequest {
    pub name: String,
}

/// An instrument that bars and watchlists refer to.
#[derive(Debug, Clone, PartialEq, Eq)]
pub struct Instrument {
    pub id: String,
    pub name: String,
    pub market: String,
    pub sector: Option<String>,
}

/// A request to add an instrument to a watchlist.
#[derive(Debug, Clone)]
pub struct AddWatchlistItemRequest {
    pub instrument_id: String,
    pub name: String,
}

/// A kind of note: its key, display name, whether its notes need approval, a description
/// and its place in listings.
#[derive(Debug, Clone, PartialEq, Eq)]
pub struct NoteKindDto {
    pub key: String,
    pub display_name: String,
    pub requires_approval: bool,
    pub description: Option<String>,
    pub sort_order: i32,
}

/// The note kinds, in listing order.
#[derive(Debug, Clone, PartialEq, Eq)]
pub struct ListNoteKindsResult {
    pub note_kinds: Vec<NoteKindDto>,
}

/// Parameters of the buyable-quantity check.
#[derive(Debug, Clone)]
pub struct CheckBuyableQtyParams {
    /// The stock code to check, such as "7203".
    pub symbol: String,
}

} // verus!
