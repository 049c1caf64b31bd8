//! The cursor into a room's history.

use vstd::prelude::*;

verus! {

/// Where the next page of room history starts and in which direction it is
/// fetched.
#[derive(Debug, Clone, PartialEq, Eq)]
pub enum PrevBatch {
    /// A page that was fetched before and has to be fetched once more,
    /// forwards, before paging backwards can go on.
    Forward(String),
    /// The ordinary cursor: older history starts here.
    Backwards(String),
}

/// A cursor with its token as a sequence of characters.
pub ghost enum PrevBatchView {
    Forward(Seq<char>),
    Backwards(Seq<char>),
}

impl View for PrevBatch {
    type V = PrevBatchView;

    open spec fn view(&self) -> PrevBatchView {
        match self {
            PrevBatch::Forward(token) => PrevBatchView::Forward(token@),
            PrevBatch::Backwards(token) => PrevBatchView::Backwards(token@),
        }
    }
}

impl PrevBatchView {
    /// The continuation token, whatever the direction.
    pub open spec fn token(self) -> Seq<char> {
        match self {
            PrevBatchView::Forward(token) => token,
            PrevBatchView::Backwards(token) => token,
        }
    }
}

/// The view of an optional cursor.
pub open spec fn cursor_view(cursor: Option<PrevBatch>) -> Option<PrevBatchView> {
    match cursor {
        Some(batch) => Some(batch@),
        None => None,
    }
}

impl PrevBatch {
    /// The continuation token, whatever the direction.
    pub fn token(&self) -> (token: &String)
        ensures
            token@ == self@.token(),
    {
        match self {
            PrevBatch::Forward(token) => token,
            PrevBatch::Backwards(token) => token,
        }
    }

    /// Whether the page is to be fetched forwards.
    pub fn is_forward(&self) -> (forward: bool)
        ensures
            forward == (self@ is Forward),
    {
        match self {
            PrevBatch::Forward(_) => true,
            PrevBatch::Backwards(_) => false,
        }
    }

    /// A copy of the cursor.
    pub fn duplicate(&self) -> (copy: Self)
        ensures
            copy@ == self@,
    {
        match self {
            PrevBatch::Forward(token) => PrevBatch::Forward(token.clone()),
            PrevBatch::Backwards(token) => PrevBatch::Backwards(token.clone()),
        }
    }
}

} // verus!
