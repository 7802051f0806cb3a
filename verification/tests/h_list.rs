//! Horizontal lists.

use wgpui::elements::h_list::{
    conclude_prepaint, h_list, measure_space, AlignedOffsets, AvailableSpace, HListDeferredScroll, HListItemSize,
    HListPrepaint, HListScrollHandle, HListScrollState, HListScrollStates, HListScrollStrategy,
    ItemPlace, LayoutKind, LayoutWidth, ListHorizontalSizingBehavior, ListSizingBehavior, Overflow,
    Overscroll, Pixels, ScrollOffset, Size,
};

fn px(value: f32) -> Pixels {
    Pixels { bits: value.to_bits() }
}

fn offset(x: f32) -> ScrollOffset {
    ScrollOffset { x: px(x), y: px(3.0) }
}

fn aligned() -> AlignedOffsets {
    AlignedOffsets { start: px(-10.0), center: px(-20.0), end: px(-30.0) }
}

fn place(is_before: bool, is_after: bool) -> ItemPlace {
    ItemPlace { is_before, is_after }
}

fn request(strategy: HListScrollStrategy, scroll_strict: bool) -> HListDeferredScroll {
    HListDeferredScroll { item_index: 4, strategy, offset: 0, scroll_strict }
}

fn scrolled(strategy: HListScrollStrategy, strict: bool, place: ItemPlace) -> ScrollOffset {
    let mut offset = offset(-1.0);
    offset.scroll_to(&request(strategy, strict), place, aligned());
    offset
}

#[test]
fn a_visible_item_is_not_scrolled_to() {
    for strategy in [
        HListScrollStrategy::Start,
        HListScrollStrategy::Center,
        HListScrollStrategy::End,
        HListScrollStrategy::Nearest,
    ] {
        assert_eq!(scrolled(strategy, false, place(false, false)), offset(-1.0));
    }
}

#[test]
fn a_strict_request_scrolls_to_a_visible_item() {
    let visible = place(false, false);
    assert_eq!(scrolled(HListScrollStrategy::Start, true, visible), offset(-10.0));
    assert_eq!(scrolled(HListScrollStrategy::Center, true, visible), offset(-20.0));
    assert_eq!(scrolled(HListScrollStrategy::End, true, visible), offset(-30.0));
    assert_eq!(scrolled(HListScrollStrategy::Nearest, true, visible), offset(-1.0));
}

#[test]
fn an_item_outside_the_viewport_is_scrolled_to() {
    assert_eq!(scrolled(HListScrollStrategy::End, false, place(true, false)), offset(-30.0));
    assert_eq!(scrolled(HListScrollStrategy::Nearest, false, place(true, false)), offset(-10.0));
    assert_eq!(scrolled(HListScrollStrategy::Nearest, false, place(false, true)), offset(-30.0));
    assert_eq!(scrolled(HListScrollStrategy::Nearest, false, place(true, true)), offset(-10.0));
}

#[test]
fn a_handle_defers_the_last_request() {
    let mut states = HListScrollStates::new();
    let handle = HListScrollHandle::new(&mut states);
    assert_eq!(states.state(handle), &HListScrollState::default());
    handle.scroll_to_item_strict(&mut states, 9, HListScrollStrategy::Center);
    handle.scroll_to_item(&mut states, 4, HListScrollStrategy::End);
    let size = HListItemSize {
        item: Size { width: px(100.0), height: px(20.0) },
        contents: Size { width: px(900.0), height: px(20.0) },
    };
    let taken = states.begin_prepaint(handle, size);
    assert_eq!(taken, Some(request(HListScrollStrategy::End, false)));
    assert_eq!(states.state(handle).last_item_size, Some(size));
    assert_eq!(states.begin_prepaint(handle, HListItemSize::default()), None, "it is taken");
    handle.scroll_to_item_strict(&mut states, 4, HListScrollStrategy::Start);
    assert_eq!(
        states.state(handle).deferred_scroll_to_item,
        Some(request(HListScrollStrategy::Start, true))
    );
}

#[test]
fn a_clone_of_a_handle_shares_its_state() {
    let mut states = HListScrollStates::new();
    let handle = HListScrollHandle::new(&mut states);
    let clone = handle.clone();
    let other = HListScrollHandle::new(&mut states);
    assert_eq!(states.len(), 2);
    handle.scroll_to_item(&mut states, 3, HListScrollStrategy::Center);
    assert_eq!(
        states.state(clone).deferred_scroll_to_item,
        Some(HListDeferredScroll {
            item_index: 3,
            strategy: HListScrollStrategy::Center,
            offset: 0,
            scroll_strict: false,
        })
    );
    assert_eq!(states.state(clone).last_item_size, None);
    assert_eq!(states.state(other), &HListScrollState::default());
}

#[test]
fn a_list_scrolls_where_its_handle_says() {
    let mut states = HListScrollStates::new();
    let handle = HListScrollHandle::new(&mut states);
    let list = h_list(5);
    assert_eq!(list.shared_offset(&states, offset(-2.0)), offset(-2.0));
    let controlled = list.track_scroll(&handle);
    assert_eq!(controlled.scroll_handle, Some(handle));
    states.set_offset(handle, offset(-8.0));
    assert_eq!(controlled.shared_offset(&states, offset(-2.0)), offset(-8.0));
}

#[test]
fn a_pass_leaves_the_list_and_its_animation_where_it_scrolled_to() {
    let mut states = HListScrollStates::new();
    let handle = HListScrollHandle::new(&mut states);
    handle.scroll_to_item(&mut states, 4, HListScrollStrategy::Center);
    states.set_offset(handle, offset(-500.0));
    let taken = states.begin_prepaint(handle, HListItemSize::default());
    let mut jump = pass(5, taken);
    jump.limit_overscroll(beyond_end());
    jump.apply_request(place(false, true), aligned());
    assert!(conclude_prepaint(&mut states, handle, &jump));
    let state = states.state(handle);
    assert_eq!(state.base_handle.offset, offset(-20.0));
    assert_eq!(state.smooth_scroll.visual_offset, px(-20.0));
    assert_eq!(state.smooth_scroll.target_offset, px(-20.0));
    assert!(!state.smooth_scroll.animating);
    assert_eq!(state.deferred_scroll_to_item, None);
    assert_eq!(state.last_item_size, Some(HListItemSize::default()));

    let mut plain = pass(5, None);
    plain.limit_overscroll(beyond_end());
    assert!(!conclude_prepaint(&mut states, handle, &plain));
    assert_eq!(states.state(handle).base_handle.offset, offset(-400.0));
    assert_eq!(states.state(handle).smooth_scroll.target_offset, px(-20.0), "left to the caller");
}

fn pass(item_count: usize, request: Option<HListDeferredScroll>) -> HListPrepaint {
    let list = h_list(item_count).track_scroll(&HListScrollHandle(0));
    HListPrepaint::new(list, request, offset(-500.0), offset(-500.0))
}

fn beyond_end() -> Overscroll {
    Overscroll { is_scrolled: true, is_beyond_end: true, max_x: px(-400.0) }
}

#[test]
fn overscroll_is_limited_from_the_next_pass_on() {
    let mut animated = pass(5, None);
    animated.limit_overscroll(beyond_end());
    animated.apply_request(place(true, true), aligned());
    assert_eq!(animated.shared_offset, offset(-400.0));
    assert_eq!(animated.logical_offset, offset(-500.0));
    assert!(!animated.settles());
    assert_eq!(animated.drawn_offset(px(-450.0)), offset(-450.0));

    let mut within = pass(5, None);
    within.limit_overscroll(Overscroll { is_beyond_end: false, ..beyond_end() });
    within.limit_overscroll(Overscroll { is_scrolled: false, ..beyond_end() });
    assert_eq!(within, pass(5, None));
}

#[test]
fn a_request_is_drawn_at_once() {
    let mut jump = pass(5, Some(request(HListScrollStrategy::Center, false)));
    jump.limit_overscroll(beyond_end());
    jump.apply_request(place(false, true), aligned());
    assert!(jump.settles());
    assert_eq!(jump.shared_offset, offset(-20.0));
    assert_eq!(jump.drawn_offset(px(-450.0)), offset(-20.0));

    let mut visible = pass(5, Some(request(HListScrollStrategy::Center, false)));
    visible.limit_overscroll(beyond_end());
    visible.apply_request(place(false, false), aligned());
    assert_eq!(visible.drawn_offset(px(-450.0)), offset(-400.0));
}

#[test]
fn a_list_without_items_is_not_scrolled() {
    let mut empty = pass(0, Some(request(HListScrollStrategy::Start, true)));
    empty.limit_overscroll(beyond_end());
    empty.apply_request(place(true, true), aligned());
    assert_eq!(empty, pass(0, Some(request(HListScrollStrategy::Start, true))));
    assert!(!empty.settles());
}

#[test]
fn a_list_without_a_handle_is_not_animated() {
    let pass = HListPrepaint::new(h_list(5), None, offset(-9.0), offset(-9.0));
    assert_eq!(pass.drawn_offset(px(-1.0)), offset(-9.0));
}

#[test]
fn the_measured_item_exists() {
    assert_eq!(h_list(0).measured_item(), None);
    assert_eq!(h_list(3).measured_item(), Some(0));
    assert_eq!(h_list(3).with_width_from_item(Some(2)).measured_item(), Some(2));
    assert_eq!(h_list(3).with_width_from_item(Some(7)).measured_item(), Some(2));
    assert_eq!(
        h_list(3).with_width_from_item(Some(2)).with_width_from_item(None).measured_item(),
        Some(0)
    );
}

#[test]
fn visible_items_exist() {
    let list = h_list(10);
    assert_eq!(list.visible_range(2, 5), 2..5);
    assert_eq!(list.visible_range(8, 13), 8..10);
    assert!(list.visible_range(12, 13).is_empty());
}

#[test]
fn sizing_behaviors_are_kept() {
    let list = h_list(2);
    assert_eq!(list.overflow_x, Some(Overflow::Scroll));
    assert_eq!(list.overflow_y, Some(Overflow::Hidden));
    let fitted = list.with_horizontal_sizing_behavior(ListHorizontalSizingBehavior::FitList);
    assert_eq!(fitted.overflow_x, None);
    let scrolling =
        fitted.with_horizontal_sizing_behavior(ListHorizontalSizingBehavior::Unconstrained);
    assert_eq!(scrolling.overflow_x, Some(Overflow::Scroll));
    assert_eq!(scrolling.horizontal_sizing_behavior, ListHorizontalSizingBehavior::Unconstrained);
    let inferred = list.with_sizing_behavior(ListSizingBehavior::Infer);
    assert_eq!(inferred.sizing_behavior, ListSizingBehavior::Infer);
    assert_eq!(inferred.layout_kind(), LayoutKind::Measured);
    assert_eq!(list.layout_kind(), LayoutKind::Styled);
    assert_eq!(
        inferred.with_sizing_behavior(ListSizingBehavior::Auto).layout_kind(),
        LayoutKind::Styled
    );
}

#[test]
fn inferred_sizes_follow_the_space() {
    let list = h_list(2);
    let definite = AvailableSpace::Definite(px(50.0));
    assert_eq!(list.layout_height(Some(px(9.0)), definite, px(5.0)), px(9.0));
    assert_eq!(list.layout_height(None, definite, px(5.0)), px(50.0));
    assert_eq!(list.layout_height(None, AvailableSpace::MinContent, px(5.0)), px(5.0));
    assert_eq!(list.layout_height(None, AvailableSpace::MaxContent, px(5.0)), px(5.0));
    assert_eq!(list.layout_width(definite), LayoutWidth::AtMost(px(50.0)));
    assert_eq!(list.layout_width(AvailableSpace::MaxContent), LayoutWidth::Desired);
    assert_eq!(list.layout_width(AvailableSpace::MinContent), LayoutWidth::Desired);
}

#[test]
fn items_are_measured_as_narrow_as_they_get() {
    let narrow = AvailableSpace::MinContent;
    assert_eq!(measure_space(None), (narrow, narrow));
    assert_eq!(measure_space(Some(px(20.0))), (narrow, AvailableSpace::Definite(px(20.0))));
}
