//! What the operations on a horizontal list promise.

use crate::elements::h_list::{
    conclude_prepaint, h_list, measure_space, AlignedOffsets, AvailableSpace, HList,
    HListDeferredScroll, HListItemSize, HListPrepaint, HListScrollHandle, HListScrollState,
    HListScrollStates, HListScrollStrategy, ItemPlace, LayoutKind, LayoutWidth,
    ListHorizontalSizingBehavior, ListSizingBehavior, Overflow, Overscroll, Pixels, ScrollOffset,
    Size,
};
use std::ops::Range;
use vstd::prelude::*;

verus! {

/// A request for an item that is beyond an edge leaves the list where its
/// strategy aligns the item, whether the request is strict or not, and whichever
/// edge it is.
pub proof fn law_item_beyond_an_edge_is_aligned(
    offset: &mut ScrollOffset,
    request: &HListDeferredScroll,
    place: ItemPlace,
    aligned: AlignedOffsets,
)
    requires
        call_ensures(ScrollOffset::scroll_to, (offset, request, place, aligned), ()),
        place.is_before || place.is_after,
    ensures
        request.strategy == HListScrollStrategy::Start ==> final(offset).x == aligned.start,
        request.strategy == HListScrollStrategy::Center ==> final(offset).x == aligned.center,
        request.strategy == HListScrollStrategy::End ==> final(offset).x == aligned.end,
        request.strategy == HListScrollStrategy::Nearest && place.is_before ==> final(offset).x
            == aligned.start,
        request.strategy == HListScrollStrategy::Nearest && !place.is_before ==> final(offset).x
            == aligned.end,
        final(offset).y == old(offset).y,
{
}

/// A request for an item that is visible moves the list only where it is strict
/// and names an alignment, and then to that alignment.
pub proof fn law_visible_item_is_aligned_on_demand(
    offset: &mut ScrollOffset,
    request: &HListDeferredScroll,
    place: ItemPlace,
    aligned: AlignedOffsets,
)
    requires
        call_ensures(ScrollOffset::scroll_to, (offset, request, place, aligned), ()),
        !place.is_before,
        !place.is_after,
    ensures
        !request.scroll_strict ==> *final(offset) == *old(offset),
        request.scroll_strict ==> match request.strategy {
            HListScrollStrategy::Start => final(offset).x == aligned.start,
            HListScrollStrategy::Center => final(offset).x == aligned.center,
            HListScrollStrategy::End => final(offset).x == aligned.end,
            HListScrollStrategy::Nearest => final(offset).x == old(offset).x,
        },
        final(offset).y == old(offset).y,
{
}

/// Where an item is beyond an edge, being strict makes no difference.
pub proof fn law_strictness_is_for_visible_items(
    first: &mut ScrollOffset,
    first_request: &HListDeferredScroll,
    second: &mut ScrollOffset,
    second_request: &HListDeferredScroll,
    place: ItemPlace,
    aligned: AlignedOffsets,
)
    requires
        call_ensures(ScrollOffset::scroll_to, (first, first_request, place, aligned), ()),
        call_ensures(ScrollOffset::scroll_to, (second, second_request, place, aligned), ()),
        *old(first) == *old(second),
        first_request.strategy == second_request.strategy,
        first_request.scroll_strict == second_request.scroll_strict || place.is_before
            || place.is_after,
    ensures
        *final(first) == *final(second),
{
}

/// A handle is given a state of its own, at rest at the origin and without a
/// request. The states of other handles stay.
pub proof fn law_new_handle(states: &mut HListScrollStates, handle: HListScrollHandle)
    requires
        call_ensures(HListScrollHandle::new, (states,), handle),
    ensures
        handle.0 == old(states)@.len(),
        final(states)@.len() == old(states)@.len() + 1,
        forall|i: int| 0 <= i < old(states)@.len() ==> #[trigger] final(states)@[i] == old(
            states,
        )@[i],
        ({
            let state = final(states)@[handle.0 as int];
            &&& state.base_handle.offset.x.bits == 0
            &&& state.base_handle.offset.y.bits == 0
            &&& state.deferred_scroll_to_item is None
            &&& state.last_item_size is None
            &&& state.smooth_scroll.visual_offset.bits == 0
            &&& state.smooth_scroll.target_offset.bits == 0
            &&& !state.smooth_scroll.animating
        }),
{
}

/// Whether `after` differs from `before` in the state of `handle` alone.
pub open spec fn only_changes(
    before: Seq<HListScrollState>,
    after: Seq<HListScrollState>,
    handle: HListScrollHandle,
) -> bool {
    &&& after.len() == before.len()
    &&& forall|i: int| 0 <= i < before.len() && i != handle.0 ==> #[trigger] after[i] == before[i]
}

/// A request, strict or not, waits in the handle's state as it was made, in
/// place of an earlier one. Nothing moves yet.
pub proof fn law_request_waits(
    handle: &HListScrollHandle,
    states: &mut HListScrollStates,
    ix: usize,
    strategy: HListScrollStrategy,
    strict: bool,
)
    requires
        handle.0 < old(states)@.len(),
        strict ==> call_ensures(
            HListScrollHandle::scroll_to_item_strict,
            (handle, states, ix, strategy),
            (),
        ),
        !strict ==> call_ensures(
            HListScrollHandle::scroll_to_item,
            (handle, states, ix, strategy),
            (),
        ),
    ensures
        only_changes(old(states)@, final(states)@, *handle),
        ({
            let before = old(states)@[handle.0 as int];
            let after = final(states)@[handle.0 as int];
            &&& after.deferred_scroll_to_item matches Some(request)
            &&& request.item_index == ix
            &&& request.strategy == strategy
            &&& request.offset == 0
            &&& request.scroll_strict == strict
            &&& after.base_handle == before.base_handle
            &&& after.last_item_size == before.last_item_size
            &&& after.smooth_scroll == before.smooth_scroll
        }),
{
}

/// A pass begins by noting the list's size and taking the request, which is then
/// gone. Nothing moves yet.
pub proof fn law_pass_begins(
    states: &mut HListScrollStates,
    handle: HListScrollHandle,
    size: HListItemSize,
    request: Option<HListDeferredScroll>,
)
    requires
        call_ensures(HListScrollStates::begin_prepaint, (states, handle, size), request),
        handle.0 < old(states)@.len(),
    ensures
        request == old(states)@[handle.0 as int].deferred_scroll_to_item,
        only_changes(old(states)@, final(states)@, handle),
        ({
            let before = old(states)@[handle.0 as int];
            let after = final(states)@[handle.0 as int];
            &&& after.deferred_scroll_to_item is None
            &&& after.last_item_size == Some(size)
            &&& after.base_handle == before.base_handle
            &&& after.smooth_scroll == before.smooth_scroll
        }),
{
}

/// The same of one state.
pub proof fn law_state_begins_a_pass(
    state: &mut HListScrollState,
    size: HListItemSize,
    request: Option<HListDeferredScroll>,
)
    requires
        call_ensures(HListScrollState::begin_prepaint, (state, size), request),
    ensures
        request == old(state).deferred_scroll_to_item,
        final(state).deferred_scroll_to_item is None,
        final(state).last_item_size == Some(size),
        final(state).base_handle == old(state).base_handle,
        final(state).smooth_scroll == old(state).smooth_scroll,
{
}

/// Moving the shared offset moves nothing else.
pub proof fn law_set_offset(
    states: &mut HListScrollStates,
    handle: HListScrollHandle,
    offset: ScrollOffset,
)
    requires
        call_ensures(HListScrollStates::set_offset, (states, handle, offset), ()),
        handle.0 < old(states)@.len(),
    ensures
        only_changes(old(states)@, final(states)@, handle),
        ({
            let before = old(states)@[handle.0 as int];
            let after = final(states)@[handle.0 as int];
            &&& after.base_handle.offset == offset
            &&& after.deferred_scroll_to_item == before.deferred_scroll_to_item
            &&& after.last_item_size == before.last_item_size
            &&& after.smooth_scroll == before.smooth_scroll
        }),
{
}

/// What the states say of themselves.
pub proof fn law_states(
    empty: HListScrollStates,
    states: &HListScrollStates,
    count: usize,
    handle: HListScrollHandle,
    state: &HListScrollState,
)
    requires
        call_ensures(HListScrollStates::new, (), empty),
        call_ensures(HListScrollStates::len, (states,), count),
        call_ensures(HListScrollStates::state, (states, handle), state),
    ensures
        empty@.len() == 0,
        count == states@.len(),
        *state == states@[handle.0 as int],
{
}

/// Defaults are zero, and a list's default state is at rest without a request.
pub proof fn law_defaults(pixels: Pixels, size: Size, sizes: HListItemSize, state: HListScrollState)
    requires
        call_ensures(Pixels::default, (), pixels),
        call_ensures(Size::default, (), size),
        call_ensures(HListItemSize::default, (), sizes),
        call_ensures(HListScrollState::default, (), state),
    ensures
        pixels.bits == 0,
        size.width.bits == 0 && size.height.bits == 0,
        sizes.item.width.bits == 0 && sizes.item.height.bits == 0,
        sizes.contents.width.bits == 0 && sizes.contents.height.bits == 0,
        state.base_handle.offset.x.bits == 0 && state.base_handle.offset.y.bits == 0,
        state.deferred_scroll_to_item is None,
        state.last_item_size is None,
        state.smooth_scroll.visual_offset.bits == 0,
        state.smooth_scroll.target_offset.bits == 0,
        !state.smooth_scroll.animating,
{
}

/// A new list has its items, scrolls sideways, cuts off what is too high,
/// measures its first item and has no handle.
pub proof fn law_new_list(item_count: usize, list: HList)
    requires
        call_ensures(h_list, (item_count,), list),
    ensures
        list.item_count == item_count,
        list.item_to_measure_index == 0,
        list.overflow_x == Some(Overflow::Scroll),
        list.overflow_y == Some(Overflow::Hidden),
        list.scroll_handle is None,
        list.sizing_behavior == ListSizingBehavior::Auto,
        list.horizontal_sizing_behavior == ListHorizontalSizingBehavior::FitList,
{
}

/// Each setting changes what it is for and nothing else, whatever came before
/// it.
pub proof fn law_settings(
    list: HList,
    item_index: Option<usize>,
    measuring: HList,
    sizing: ListSizingBehavior,
    sized: HList,
    handle: &HListScrollHandle,
    followed: HList,
)
    requires
        call_ensures(HList::with_width_from_item, (list, item_index), measuring),
        call_ensures(HList::with_sizing_behavior, (list, sizing), sized),
        call_ensures(HList::track_scroll, (list, handle), followed),
    ensures
        item_index matches Some(index) ==> measuring.item_to_measure_index == index,
        item_index is None ==> measuring.item_to_measure_index == 0,
        measuring.item_count == list.item_count,
        measuring.overflow_x == list.overflow_x,
        measuring.overflow_y == list.overflow_y,
        measuring.scroll_handle == list.scroll_handle,
        measuring.sizing_behavior == list.sizing_behavior,
        measuring.horizontal_sizing_behavior == list.horizontal_sizing_behavior,
        sized.sizing_behavior == sizing,
        sized.item_count == list.item_count,
        sized.item_to_measure_index == list.item_to_measure_index,
        sized.overflow_x == list.overflow_x,
        sized.overflow_y == list.overflow_y,
        sized.scroll_handle == list.scroll_handle,
        sized.horizontal_sizing_behavior == list.horizontal_sizing_behavior,
        followed.scroll_handle == Some(*handle),
        followed.item_count == list.item_count,
        followed.item_to_measure_index == list.item_to_measure_index,
        followed.overflow_x == list.overflow_x,
        followed.overflow_y == list.overflow_y,
        followed.sizing_behavior == list.sizing_behavior,
        followed.horizontal_sizing_behavior == list.horizontal_sizing_behavior,
{
}

/// A list scrolls sideways when it is unconstrained, and does not when it fits
/// its items. Nothing else changes.
pub proof fn law_horizontal_sizing(
    list: HList,
    behavior: ListHorizontalSizingBehavior,
    changed: HList,
)
    requires
        call_ensures(HList::with_horizontal_sizing_behavior, (list, behavior), changed),
    ensures
        changed.horizontal_sizing_behavior == behavior,
        behavior == ListHorizontalSizingBehavior::Unconstrained ==> changed.overflow_x == Some(
            Overflow::Scroll,
        ),
        behavior == ListHorizontalSizingBehavior::FitList ==> changed.overflow_x is None,
        changed.item_count == list.item_count,
        changed.item_to_measure_index == list.item_to_measure_index,
        changed.overflow_y == list.overflow_y,
        changed.scroll_handle == list.scroll_handle,
        changed.sizing_behavior == list.sizing_behavior,
{
}

/// A list is measured exactly when it infers its size, and the item that is
/// measured is one of its items: the chosen one, or the last where that one is
/// not there.
pub proof fn law_measuring(list: &HList, kind: LayoutKind, index: Option<usize>)
    requires
        call_ensures(HList::layout_kind, (list,), kind),
        call_ensures(HList::measured_item, (list,), index),
    ensures
        kind == LayoutKind::Measured <==> list.sizing_behavior == ListSizingBehavior::Infer,
        kind == LayoutKind::Styled <==> list.sizing_behavior == ListSizingBehavior::Auto,
        index is None <==> list.item_count == 0,
        index matches Some(index) ==> {
            &&& index < list.item_count
            &&& index <= list.item_to_measure_index
            &&& index == list.item_to_measure_index || index + 1 == list.item_count
        },
{
}

/// An item is measured as narrow as it gets, at the list's height where that is
/// known.
pub proof fn law_measure_space(
    list_height: Option<Pixels>,
    space: (AvailableSpace, AvailableSpace),
)
    requires
        call_ensures(measure_space, (list_height,), space),
    ensures
        space.0 == AvailableSpace::MinContent,
        list_height matches Some(height) ==> space.1 == AvailableSpace::Definite(height),
        list_height is None ==> space.1 == AvailableSpace::MinContent,
{
}

/// A list is as high as is known, else as high as there is room, else as high as
/// an item. It is as wide as its items, or as the room where that is limited.
pub proof fn law_layout(
    list: &HList,
    known: Option<Pixels>,
    available: AvailableSpace,
    item_height: Pixels,
    height: Pixels,
    width: LayoutWidth,
)
    requires
        call_ensures(HList::layout_height, (list, known, available, item_height), height),
        call_ensures(HList::layout_width, (list, available), width),
    ensures
        known matches Some(value) ==> height == value,
        known is None && available is Definite ==> available == AvailableSpace::Definite(height),
        known is None && available !is Definite ==> height == item_height,
        available matches AvailableSpace::Definite(limit) ==> width == LayoutWidth::AtMost(limit),
        available !is Definite ==> width == LayoutWidth::Desired,
{
}

/// An item is rendered exactly when it is one of the list's and the viewport
/// shows it.
pub proof fn law_visible_items(
    list: &HList,
    first_visible: usize,
    last_visible: usize,
    range: Range<usize>,
    item: int,
)
    requires
        call_ensures(HList::visible_range, (list, first_visible, last_visible), range),
    ensures
        range.start <= item < range.end <==> first_visible <= item < last_visible && item
            < list.item_count,
        range.start == first_visible,
{
}

/// The shared offset is the handle's where there is one, and the list's own
/// otherwise.
pub proof fn law_shared_offset(
    list: &HList,
    states: &HListScrollStates,
    own_offset: ScrollOffset,
    offset: ScrollOffset,
)
    requires
        call_ensures(HList::shared_offset, (list, states, own_offset), offset),
    ensures
        list.scroll_handle matches Some(handle) ==> offset
            == states@[handle.0 as int].base_handle.offset,
        list.scroll_handle is None ==> offset == own_offset,
{
}

/// A pass starts with what it is given.
pub proof fn law_new_pass(
    list: HList,
    request: Option<HListDeferredScroll>,
    shared_offset: ScrollOffset,
    logical_offset: ScrollOffset,
    pass: HListPrepaint,
)
    requires
        call_ensures(HListPrepaint::new, (list, request, shared_offset, logical_offset), pass),
    ensures
        pass.list == list,
        pass.request == request,
        pass.shared_offset == shared_offset,
        pass.logical_offset == logical_offset,
{
}

/// A list with items that is scrolled beyond its end has its shared offset
/// brought back to the end. In every other case nothing moves.
pub proof fn law_overscroll(pass: &mut HListPrepaint, overscroll: Overscroll)
    requires
        call_ensures(HListPrepaint::limit_overscroll, (pass, overscroll), ()),
    ensures
        old(pass).list.item_count > 0 && overscroll.is_scrolled && overscroll.is_beyond_end
            ==> final(pass).shared_offset.x == overscroll.max_x,
        old(pass).list.item_count == 0 || !overscroll.is_scrolled || !overscroll.is_beyond_end
            ==> final(pass).shared_offset.x == old(pass).shared_offset.x,
        final(pass).shared_offset.y == old(pass).shared_offset.y,
        final(pass).logical_offset == old(pass).logical_offset,
        final(pass).request == old(pass).request,
        final(pass).list == old(pass).list,
{
}

/// Applying a request scrolls the shared offset as the request says, and the
/// pass then draws there. Without a request, or without items, nothing moves.
pub proof fn law_apply_request(
    pass: &mut HListPrepaint,
    place: ItemPlace,
    aligned: AlignedOffsets,
    offset: &mut ScrollOffset,
)
    requires
        call_ensures(HListPrepaint::apply_request, (pass, place, aligned), ()),
        old(pass).request matches Some(request) ==> call_ensures(
            ScrollOffset::scroll_to,
            (offset, &request, place, aligned),
            (),
        ),
        *old(offset) == old(pass).shared_offset,
    ensures
        old(pass).request is Some && old(pass).list.item_count > 0 ==> final(pass).shared_offset
            == *final(offset) && final(pass).logical_offset == *final(offset),
        old(pass).request is None || old(pass).list.item_count == 0 ==> *final(pass) == *old(pass),
        final(pass).request == old(pass).request,
        final(pass).list == old(pass).list,
{
}

/// A pass that applies a request leaves the list at its alignment, where the
/// item is beyond an edge.
pub proof fn law_applied_request_aligns(
    pass: &mut HListPrepaint,
    place: ItemPlace,
    aligned: AlignedOffsets,
)
    requires
        call_ensures(HListPrepaint::apply_request, (pass, place, aligned), ()),
        old(pass).list.item_count > 0,
        old(pass).request is Some,
        place.is_before || place.is_after,
    ensures
        final(pass).logical_offset == final(pass).shared_offset,
        final(pass).shared_offset.y == old(pass).shared_offset.y,
        match old(pass).request->0.strategy {
            HListScrollStrategy::Start => final(pass).shared_offset.x == aligned.start,
            HListScrollStrategy::Center => final(pass).shared_offset.x == aligned.center,
            HListScrollStrategy::End => final(pass).shared_offset.x == aligned.end,
            HListScrollStrategy::Nearest => final(pass).shared_offset.x == aligned.start
                || final(pass).shared_offset.x == aligned.end,
        },
{
}

/// A pass settles the animation exactly when the list has items and a handle,
/// and there is a request.
pub proof fn law_settles(pass: &HListPrepaint, settles: bool)
    requires
        call_ensures(HListPrepaint::settles, (pass,), settles),
    ensures
        settles ==> pass.list.item_count > 0,
        settles ==> pass.list.scroll_handle is Some,
        settles ==> pass.request is Some,
        !settles ==> pass.list.item_count == 0 || pass.list.scroll_handle is None
            || pass.request is None,
{
}

/// A list is drawn at its logical offset, except that one with a handle and
/// without a request is drawn where its animation stands.
pub proof fn law_drawn_offset(pass: &HListPrepaint, animated_x: Pixels, offset: ScrollOffset)
    requires
        call_ensures(HListPrepaint::drawn_offset, (pass, animated_x), offset),
    ensures
        pass.list.scroll_handle is Some && pass.request is None ==> offset.x == animated_x,
        pass.list.scroll_handle is None || pass.request is Some ==> offset.x
            == pass.logical_offset.x,
        offset.y == pass.logical_offset.y,
{
}

/// A pass ends with the shared offset in the handle's state. Where the pass
/// settles, the animation rests at the logical offset, and it goes on as it was
/// otherwise.
pub proof fn law_pass_ends(
    states: &mut HListScrollStates,
    handle: HListScrollHandle,
    pass: &HListPrepaint,
    settled: bool,
    settles: bool,
)
    requires
        call_ensures(conclude_prepaint, (states, handle, pass), settled),
        call_ensures(HListPrepaint::settles, (pass,), settles),
        handle.0 < old(states)@.len(),
        pass.list.scroll_handle == Some(handle),
    ensures
        settled == settles,
        only_changes(old(states)@, final(states)@, handle),
        ({
            let before = old(states)@[handle.0 as int];
            let after = final(states)@[handle.0 as int];
            &&& after.base_handle.offset == pass.shared_offset
            &&& after.deferred_scroll_to_item == before.deferred_scroll_to_item
            &&& after.last_item_size == before.last_item_size
            &&& settled ==> {
                &&& after.smooth_scroll.visual_offset == pass.logical_offset.x
                &&& after.smooth_scroll.target_offset == pass.logical_offset.x
                &&& !after.smooth_scroll.animating
            }
            &&& !settled ==> after.smooth_scroll == before.smooth_scroll
        }),
{
}

} // verus!
