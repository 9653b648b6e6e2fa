//! What the store needs to know of the scrollbar state that it keeps for the
//! display.

use ratatui::widgets::ScrollbarState;
use vstd::prelude::*;

verus! {

/// `ratatui::widgets::ScrollbarState`, whose fields are private to its crate.
#[verifier::external_type_specification]
#[verifier::external_body]
pub struct ExScrollbarState(ratatui::widgets::ScrollbarState);

/// The total length of the scrollable content that `state` records.
pub uninterp spec fn scrollbar_content_length(state: ScrollbarState) -> nat;

/// The position within the content that `state` records.
pub uninterp spec fn scrollbar_position(state: ScrollbarState) -> nat;

/// The length of the content in the viewport that `state` records.
pub uninterp spec fn scrollbar_viewport_length(state: ScrollbarState) -> nat;

/// The three numbers that make up a scrollbar state.
pub ghost struct ScrollbarView {
    pub content_length: nat,
    pub position: nat,
    pub viewport_length: nat,
}

/// The numbers that `state` records.
pub open spec fn scrollbar_view(state: ScrollbarState) -> ScrollbarView {
    ScrollbarView {
        content_length: scrollbar_content_length(state),
        position: scrollbar_position(state),
        viewport_length: scrollbar_viewport_length(state),
    }
}

/// Trusted: the derived `Default` of `ScrollbarState` sets its three fields,
/// all of type `usize`, to zero.
pub assume_specification[ <ScrollbarState as Default>::default ]() -> (state: ScrollbarState)
    ensures
        scrollbar_content_length(state) == 0,
        scrollbar_position(state) == 0,
        scrollbar_viewport_length(state) == 0,
;

/// Trusted: `ScrollbarState::content_length` stores its argument as the
/// content length and hands the state back with its other two fields as
/// they were.
pub assume_specification[ ScrollbarState::content_length ](
    state: ScrollbarState,
    content_length: usize,
) -> (updated: ScrollbarState)
    ensures
        scrollbar_content_length(updated) == content_length,
        scrollbar_position(updated) == scrollbar_position(state),
        scrollbar_viewport_length(updated) == scrollbar_viewport_length(state),
;

} // verus!
