//! A horizontally scrolling list of items of one width: the item it measures,
//! how it is sized, where it scrolls to, and which items are visible.
//!
//! Lengths and offsets are pixels, carried as the bit patterns of
//! single-precision numbers; whoever measures them compares and computes them.

use std::ops::Range;
use vstd::prelude::*;

verus! {

/// A length or an offset in pixels, as the bit pattern of an IEEE 754
/// single-precision number.
#[derive(Debug, Clone, Copy, PartialEq, Eq, Structural)]
pub struct Pixels {
    /// The bit pattern.
    pub bits: u32,
}

/// No pixels.
pub open spec fn no_pixels() -> Pixels {
    Pixels { bits: 0 }
}

impl Default for Pixels {
    /// No pixels.
    fn default() -> (pixels: Self)
        ensures
            pixels == no_pixels(),
    {
        Pixels { bits: 0 }
    }
}

/// A width and a height in pixels.
#[derive(Debug, Clone, Copy, PartialEq, Eq, Structural)]
pub struct Size {
    /// The width.
    pub width: Pixels,
    /// The height.
    pub height: Pixels,
}

impl Default for Size {
    /// A size of nothing.
    fn default() -> (size: Self)
        ensures
            size.width == no_pixels(),
            size.height == no_pixels(),
    {
        Size { width: Pixels::default(), height: Pixels::default() }
    }
}

/// How far a list is scrolled. Scrolling towards the end makes `x` negative.
#[derive(Debug, Clone, Copy, PartialEq, Eq, Structural)]
pub struct ScrollOffset {
    /// Horizontal offset.
    pub x: Pixels,
    /// Vertical offset.
    pub y: Pixels,
}

/// The scroll position that a list shares with its container.
#[derive(Debug, PartialEq, Eq, Structural)]
pub struct ScrollHandle {
    /// How far the container is scrolled.
    pub offset: ScrollOffset,
}

/// State of a smooth-scrolling animation.
#[derive(Debug, Clone, Copy, PartialEq, Eq, Structural)]
pub struct SmoothScrollState {
    /// The offset that is drawn.
    pub visual_offset: Pixels,
    /// The offset that the animation ends at.
    pub target_offset: Pixels,
    /// Whether the animation runs.
    pub animating: bool,
}

/// An animation at rest at the offset `x`.
pub open spec fn resting_at(x: Pixels) -> SmoothScrollState {
    SmoothScrollState { visual_offset: x, target_offset: x, animating: false }
}

/// Scroll strategy for bringing an item into view.
#[derive(Debug, Clone, Copy, PartialEq, Eq, Structural)]
pub enum HListScrollStrategy {
    /// Scroll so the item is at the start (left) of the viewport.
    Start,
    /// Scroll so the item is centered in the viewport.
    Center,
    /// Scroll so the item is at the end (right) of the viewport.
    End,
    /// Scroll only as much as needed to make the item visible.
    Nearest,
}

/// A deferred request to scroll a list to an item.
#[derive(Debug, Clone, Copy, PartialEq, Eq, Structural)]
pub struct HListDeferredScroll {
    /// The index of the item to scroll to.
    pub item_index: usize,
    /// The scroll strategy to use.
    pub strategy: HListScrollStrategy,
    /// Offset in number of items.
    pub offset: usize,
    /// Whether to force scroll even if the item is already visible.
    pub scroll_strict: bool,
}

/// Measured size of a list and its contents during layout.
#[derive(Debug, Clone, Copy, PartialEq, Eq, Structural)]
pub struct HListItemSize {
    /// The size of the list.
    pub item: Size,
    /// The size of the list's contents, which may be larger than the list
    /// itself.
    pub contents: Size,
}

impl Default for HListItemSize {
    /// A list that was never measured.
    fn default() -> (size: Self)
        ensures
            size.item.width == no_pixels() && size.item.height == no_pixels(),
            size.contents.width == no_pixels() && size.contents.height == no_pixels(),
    {
        HListItemSize { item: Size::default(), contents: Size::default() }
    }
}

/// Scroll and animation state of a list.
#[derive(Debug, PartialEq, Eq, Structural)]
pub struct HListScrollState {
    /// The scroll position shared with the container.
    pub base_handle: ScrollHandle,
    /// A deferred scroll-to-item request to be consumed during prepaint.
    pub deferred_scroll_to_item: Option<HListDeferredScroll>,
    /// The size of the list and its contents from the last layout pass.
    pub last_item_size: Option<HListItemSize>,
    /// Smooth scrolling animation state.
    pub smooth_scroll: SmoothScrollState,
}

/// The state of a list that was neither scrolled nor measured.
pub open spec fn unscrolled() -> HListScrollState {
    HListScrollState {
        base_handle: ScrollHandle { offset: ScrollOffset { x: no_pixels(), y: no_pixels() } },
        deferred_scroll_to_item: None,
        last_item_size: None,
        smooth_scroll: resting_at(no_pixels()),
    }
}

impl Default for HListScrollState {
    /// The state of a list that was neither scrolled nor measured.
    fn default() -> (state: Self)
        ensures
            state == unscrolled(),
    {
        HListScrollState {
            base_handle: ScrollHandle {
                offset: ScrollOffset { x: Pixels::default(), y: Pixels::default() },
            },
            deferred_scroll_to_item: None,
            last_item_size: None,
            smooth_scroll: SmoothScrollState {
                visual_offset: Pixels::default(),
                target_offset: Pixels::default(),
                animating: false,
            },
        }
    }
}

impl HListScrollState {
    /// Begin a prepaint pass: note the list's measured size, and take the
    /// scroll request if there is one.
    pub fn begin_prepaint(&mut self, size: HListItemSize) -> (request: Option<HListDeferredScroll>)
        ensures
            request == old(self).deferred_scroll_to_item,
            *final(self) == (HListScrollState {
                last_item_size: Some(size),
                deferred_scroll_to_item: None,
                ..*old(self)
            }),
    {
        self.last_item_size = Some(size);
        let request = self.deferred_scroll_to_item;
        self.deferred_scroll_to_item = None;
        request
    }

    /// End the animation at the offset `x` that a request scrolled the list to.
    fn settle(&mut self, x: Pixels)
        ensures
            *final(self) == (HListScrollState { smooth_scroll: resting_at(x), ..*old(self) }),
    {
        self.smooth_scroll.visual_offset = x;
        self.smooth_scroll.target_offset = x;
        self.smooth_scroll.animating = false;
    }
}

/// The scroll states that handles refer to.
#[derive(Debug)]
pub struct HListScrollStates {
    states: Vec<HListScrollState>,
}

impl View for HListScrollStates {
    type V = Seq<HListScrollState>;

    closed spec fn view(&self) -> Seq<HListScrollState> {
        self.states@
    }
}

impl HListScrollStates {
    /// No states.
    pub fn new() -> (states: Self)
        ensures
            states@ == Seq::<HListScrollState>::empty(),
    {
        HListScrollStates { states: Vec::new() }
    }

    /// How many states there are.
    pub fn len(&self) -> (count: usize)
        ensures
            count == self@.len(),
    {
        self.states.len()
    }

    /// The state that `handle` refers to.
    pub fn state(&self, handle: HListScrollHandle) -> (state: &HListScrollState)
        requires
            handle.0 < self@.len(),
        ensures
            *state == self@[handle.0 as int],
    {
        &self.states[handle.0]
    }

    /// Move the scroll position that the list of `handle` shares with its
    /// container.
    pub fn set_offset(&mut self, handle: HListScrollHandle, offset: ScrollOffset)
        requires
            handle.0 < old(self)@.len(),
        ensures
            final(self)@ == old(self)@.update(
                handle.0 as int,
                HListScrollState {
                    base_handle: ScrollHandle { offset },
                    ..old(self)@[handle.0 as int]
                },
            ),
    {
        self.states[handle.0].base_handle.offset = offset;
    }

    /// Begin a prepaint pass over the list of `handle`: note the list's measured
    /// size, and take the scroll request if there is one.
    pub fn begin_prepaint(&mut self, handle: HListScrollHandle, size: HListItemSize) -> (request:
        Option<HListDeferredScroll>)
        requires
            handle.0 < old(self)@.len(),
        ensures
            request == old(self)@[handle.0 as int].deferred_scroll_to_item,
            final(self)@ == old(self)@.update(
                handle.0 as int,
                HListScrollState {
                    last_item_size: Some(size),
                    deferred_scroll_to_item: None,
                    ..old(self)@[handle.0 as int]
                },
            ),
    {
        self.states[handle.0].begin_prepaint(size)
    }
}

/// A handle for controlling the scroll position of a list: which of the scroll
/// states is its own. Copies of a handle refer to the same state, so a request
/// made through one is seen through the others.
#[derive(Debug, Clone, Copy, PartialEq, Eq, Structural)]
pub struct HListScrollHandle(pub usize);

/// The states after a request was made through `handle`.
pub open spec fn requested(
    states: Seq<HListScrollState>,
    handle: HListScrollHandle,
    request: HListDeferredScroll,
) -> Seq<HListScrollState> {
    states.update(
        handle.0 as int,
        HListScrollState {
            deferred_scroll_to_item: Some(request),
            ..states[handle.0 as int]
        },
    )
}

impl HListScrollHandle {
    /// Create a new scroll handle, with a state of its own.
    pub fn new(states: &mut HListScrollStates) -> (handle: Self)
        ensures
            handle.0 == old(states)@.len(),
            final(states)@ == old(states)@.push(unscrolled()),
    {
        let handle = HListScrollHandle(states.states.len());
        states.states.push(HListScrollState::default());
        handle
    }

    /// Request a non-strict scroll to bring the given item into view. If the
    /// item is already visible, no scrolling occurs.
    pub fn scroll_to_item(
        &self,
        states: &mut HListScrollStates,
        ix: usize,
        strategy: HListScrollStrategy,
    )
        requires
            self.0 < old(states)@.len(),
        ensures
            final(states)@ == requested(
                old(states)@,
                *self,
                (HListDeferredScroll {
                    item_index: ix,
                    strategy,
                    offset: 0,
                    scroll_strict: false,
                }),
            ),
    {
        states.states[self.0].deferred_scroll_to_item = Some(
            HListDeferredScroll { item_index: ix, strategy, offset: 0, scroll_strict: false },
        );
    }

    /// Request a strict scroll to bring the given item into view. The item
    /// will always be scrolled to match the strategy, even if already visible.
    pub fn scroll_to_item_strict(
        &self,
        states: &mut HListScrollStates,
        ix: usize,
        strategy: HListScrollStrategy,
    )
        requires
            self.0 < old(states)@.len(),
        ensures
            final(states)@ == requested(
                old(states)@,
                *self,
                (HListDeferredScroll {
                    item_index: ix,
                    strategy,
                    offset: 0,
                    scroll_strict: true,
                }),
            ),
    {
        states.states[self.0].deferred_scroll_to_item = Some(
            HListDeferredScroll { item_index: ix, strategy, offset: 0, scroll_strict: true },
        );
    }
}

/// A request made through a handle is seen through every copy of it, changes
/// nothing else of its state, and leaves the states of other handles alone.
pub proof fn law_copies_of_a_handle_share_requests(
    states: Seq<HListScrollState>,
    handle: HListScrollHandle,
    other: HListScrollHandle,
    request: HListDeferredScroll,
)
    requires
        handle.0 < states.len(),
        other.0 < states.len(),
    ensures
        requested(states, handle, request)[other.0 as int] == if other == handle {
            HListScrollState {
                deferred_scroll_to_item: Some(request),
                ..states[other.0 as int]
            }
        } else {
            states[other.0 as int]
        },
{
}

/// Where an item is in relation to the viewport.
#[derive(Debug, Clone, Copy, PartialEq, Eq, Structural)]
pub struct ItemPlace {
    /// The item begins left of the viewport.
    pub is_before: bool,
    /// The item ends right of the viewport.
    pub is_after: bool,
}

/// The horizontal offsets that would bring an item into view.
#[derive(Debug, Clone, Copy, PartialEq, Eq, Structural)]
pub struct AlignedOffsets {
    /// With the item at the start of the viewport.
    pub start: Pixels,
    /// With the item in the center of the viewport.
    pub center: Pixels,
    /// With the item at the end of the viewport.
    pub end: Pixels,
}

/// Where a scroll request moves the list, if it moves it at all. A request
/// that is not strict leaves a visible item alone; scrolling to the nearest
/// edge picks the edge the item is beyond.
pub open spec fn resolved_strategy(
    request: HListDeferredScroll,
    place: ItemPlace,
) -> HListScrollStrategy {
    if !request.scroll_strict && !place.is_before && !place.is_after {
        HListScrollStrategy::Nearest
    } else if request.strategy != HListScrollStrategy::Nearest {
        request.strategy
    } else if place.is_before {
        HListScrollStrategy::Start
    } else if place.is_after {
        HListScrollStrategy::End
    } else {
        HListScrollStrategy::Nearest
    }
}

/// The offset of a list at `offset` after a scroll request was applied.
pub open spec fn scrolled_to(
    offset: ScrollOffset,
    request: HListDeferredScroll,
    place: ItemPlace,
    aligned: AlignedOffsets,
) -> ScrollOffset {
    match resolved_strategy(request, place) {
        HListScrollStrategy::Start => ScrollOffset { x: aligned.start, ..offset },
        HListScrollStrategy::Center => ScrollOffset { x: aligned.center, ..offset },
        HListScrollStrategy::End => ScrollOffset { x: aligned.end, ..offset },
        HListScrollStrategy::Nearest => offset,
    }
}

impl ScrollOffset {
    /// Apply a scroll request to an item at `place`, which `aligned` would
    /// bring into view.
    pub fn scroll_to(
        &mut self,
        request: &HListDeferredScroll,
        place: ItemPlace,
        aligned: AlignedOffsets,
    )
        ensures
            *final(self) == scrolled_to(*old(self), *request, place, aligned),
    {
        if request.scroll_strict || place.is_before || place.is_after {
            let mut strategy = request.strategy;
            if strategy == HListScrollStrategy::Nearest {
                if place.is_before {
                    strategy = HListScrollStrategy::Start;
                } else if place.is_after {
                    strategy = HListScrollStrategy::End;
                }
            }
            match strategy {
                HListScrollStrategy::Start => {
                    self.x = aligned.start;
                },
                HListScrollStrategy::Center => {
                    self.x = aligned.center;
                },
                HListScrollStrategy::End => {
                    self.x = aligned.end;
                },
                HListScrollStrategy::Nearest => {},
            }
        }
    }
}

/// What a list does with content that does not fit.
#[derive(Debug, Clone, Copy, PartialEq, Eq, Structural)]
pub enum Overflow {
    /// The content may be scrolled.
    Scroll,
    /// The content is cut off.
    Hidden,
}

/// How a list finds its own size.
#[derive(Debug, Clone, Copy, PartialEq, Eq, Structural)]
pub enum ListSizingBehavior {
    /// From the size of its items.
    Infer,
    /// From its style alone.
    Auto,
}

/// How wide the items of a list may be.
#[derive(Debug, Clone, Copy, PartialEq, Eq, Structural)]
pub enum ListHorizontalSizingBehavior {
    /// All items fit within the list.
    FitList,
    /// The list scrolls.
    Unconstrained,
}

/// The space that a layout pass offers in one direction.
#[derive(Debug, Clone, Copy, PartialEq, Eq, Structural)]
pub enum AvailableSpace {
    /// This much.
    Definite(Pixels),
    /// As little as the content needs.
    MinContent,
    /// As much as the content wants.
    MaxContent,
}

/// How a layout pass finds the size of a list.
#[derive(Debug, Clone, Copy, PartialEq, Eq, Structural)]
pub enum LayoutKind {
    /// By measuring an item.
    Measured,
    /// From the style alone.
    Styled,
}

/// The width that a layout pass settles on.
#[derive(Debug, Clone, Copy, PartialEq, Eq, Structural)]
pub enum LayoutWidth {
    /// All items side by side.
    Desired,
    /// All items side by side, but no more than this.
    AtMost(Pixels),
}

/// A horizontal list of items of one width. Only visible items are rendered.
#[derive(Debug, Clone, Copy, PartialEq, Eq, Structural)]
pub struct HList {
    /// How many items there are.
    pub item_count: usize,
    /// Which item is measured.
    pub item_to_measure_index: usize,
    /// What happens to items that do not fit.
    pub overflow_x: Option<Overflow>,
    /// What happens to items that are too high.
    pub overflow_y: Option<Overflow>,
    /// The handle that controls the list's scroll position, if there is one.
    pub scroll_handle: Option<HListScrollHandle>,
    /// How the list finds its own size.
    pub sizing_behavior: ListSizingBehavior,
    /// How wide the items may be.
    pub horizontal_sizing_behavior: ListHorizontalSizingBehavior,
}

/// Create a horizontal list of `item_count` items. It scrolls, measures its
/// first item, and is sized by its style.
pub fn h_list(item_count: usize) -> (list: HList)
    ensures
        list == (HList {
            item_count,
            item_to_measure_index: 0,
            overflow_x: Some(Overflow::Scroll),
            overflow_y: Some(Overflow::Hidden),
            scroll_handle: None,
            sizing_behavior: ListSizingBehavior::Auto,
            horizontal_sizing_behavior: ListHorizontalSizingBehavior::FitList,
        }),
{
    HList {
        item_count,
        item_to_measure_index: 0,
        overflow_x: Some(Overflow::Scroll),
        overflow_y: Some(Overflow::Hidden),
        scroll_handle: None,
        sizing_behavior: ListSizingBehavior::Auto,
        horizontal_sizing_behavior: ListHorizontalSizingBehavior::FitList,
    }
}

impl HList {
    /// Sets the index of the item to use for measuring width. Defaults to the
    /// first.
    pub fn with_width_from_item(self, item_index: Option<usize>) -> (list: Self)
        ensures
            list == (HList {
                item_to_measure_index: match item_index {
                    Some(index) => index,
                    None => 0,
                },
                ..self
            }),
    {
        let mut list = self;
        list.item_to_measure_index = match item_index {
            Some(index) => index,
            None => 0,
        };
        list
    }

    /// Sets the sizing behavior for the list.
    pub fn with_sizing_behavior(self, behavior: ListSizingBehavior) -> (list: Self)
        ensures
            list == (HList { sizing_behavior: behavior, ..self }),
    {
        let mut list = self;
        list.sizing_behavior = behavior;
        list
    }

    /// Sets the horizontal sizing behavior: unconstrained lists scroll, others
    /// fit all items within the container.
    pub fn with_horizontal_sizing_behavior(
        self,
        behavior: ListHorizontalSizingBehavior,
    ) -> (list: Self)
        ensures
            list == (HList {
                horizontal_sizing_behavior: behavior,
                overflow_x: match behavior {
                    ListHorizontalSizingBehavior::FitList => None,
                    ListHorizontalSizingBehavior::Unconstrained => Some(Overflow::Scroll),
                },
                ..self
            }),
    {
        let mut list = self;
        list.horizontal_sizing_behavior = behavior;
        match behavior {
            ListHorizontalSizingBehavior::FitList => {
                list.overflow_x = None;
            },
            ListHorizontalSizingBehavior::Unconstrained => {
                list.overflow_x = Some(Overflow::Scroll);
            },
        }
        list
    }

    /// Let `handle` control the scroll position: the list scrolls where the
    /// handle's state says, and the state follows the list.
    pub fn track_scroll(self, handle: &HListScrollHandle) -> (list: Self)
        ensures
            list == (HList { scroll_handle: Some(*handle), ..self }),
    {
        let mut list = self;
        list.scroll_handle = Some(*handle);
        list
    }

    /// How a layout pass finds the size of this list.
    pub fn layout_kind(&self) -> (kind: LayoutKind)
        ensures
            kind == match self.sizing_behavior {
                ListSizingBehavior::Infer => LayoutKind::Measured,
                ListSizingBehavior::Auto => LayoutKind::Styled,
            },
    {
        match self.sizing_behavior {
            ListSizingBehavior::Infer => LayoutKind::Measured,
            ListSizingBehavior::Auto => LayoutKind::Styled,
        }
    }

    /// The offset shared with the container: that of the handle's state, or
    /// `own_offset` where no handle controls the list.
    pub fn shared_offset(&self, states: &HListScrollStates, own_offset: ScrollOffset) -> (offset:
        ScrollOffset)
        requires
            self.scroll_handle matches Some(handle) ==> handle.0 < states@.len(),
        ensures
            offset == match self.scroll_handle {
                Some(handle) => states@[handle.0 as int].base_handle.offset,
                None => own_offset,
            },
    {
        match self.scroll_handle {
            Some(handle) => states.state(handle).base_handle.offset,
            None => own_offset,
        }
    }

    /// Which item to measure: the chosen one, or the last where there are not
    /// that many. A list without items has none.
    pub fn measured_item(&self) -> (index: Option<usize>)
        ensures
            index == if self.item_count == 0 {
                None
            } else if self.item_to_measure_index < self.item_count {
                Some(self.item_to_measure_index)
            } else {
                Some((self.item_count - 1) as usize)
            },
    {
        if self.item_count == 0 {
            return None;
        }
        if self.item_to_measure_index < self.item_count {
            Some(self.item_to_measure_index)
        } else {
            Some(self.item_count - 1)
        }
    }

    /// The height that a layout pass settles on: the one that is known, or the
    /// one that is available, or that of an item.
    pub fn layout_height(
        &self,
        known: Option<Pixels>,
        available: AvailableSpace,
        item_height: Pixels,
    ) -> (height: Pixels)
        ensures
            height == match (known, available) {
                (Some(height), _) => height,
                (None, AvailableSpace::Definite(height)) => height,
                (None, _) => item_height,
            },
    {
        match known {
            Some(height) => height,
            None => match available {
                AvailableSpace::Definite(height) => height,
                AvailableSpace::MinContent | AvailableSpace::MaxContent => item_height,
            },
        }
    }

    /// The width that a layout pass settles on.
    pub fn layout_width(&self, available: AvailableSpace) -> (width: LayoutWidth)
        ensures
            width == match available {
                AvailableSpace::Definite(limit) => LayoutWidth::AtMost(limit),
                _ => LayoutWidth::Desired,
            },
    {
        match available {
            AvailableSpace::Definite(limit) => LayoutWidth::AtMost(limit),
            AvailableSpace::MinContent | AvailableSpace::MaxContent => LayoutWidth::Desired,
        }
    }

    /// The items to render, where the viewport shows the items from
    /// `first_visible` up to `last_visible`.
    pub fn visible_range(&self, first_visible: usize, last_visible: usize) -> (range: Range<usize>)
        ensures
            range.start == first_visible,
            range.end == if last_visible <= self.item_count {
                last_visible
            } else {
                self.item_count
            },
    {
        let end: usize = if last_visible <= self.item_count {
            last_visible
        } else {
            self.item_count
        };
        first_visible..end
    }
}

/// The space that a list measures its item in: as narrow as the item gets, and
/// as high as the list where its height is known. Width first.
pub fn measure_space(list_height: Option<Pixels>) -> (space: (AvailableSpace, AvailableSpace))
    ensures
        space.0 == AvailableSpace::MinContent,
        space.1 == match list_height {
            Some(height) => AvailableSpace::Definite(height),
            None => AvailableSpace::MinContent,
        },
{
    let height = match list_height {
        Some(height) => AvailableSpace::Definite(height),
        None => AvailableSpace::MinContent,
    };
    (AvailableSpace::MinContent, height)
}

/// How a list's offset compares with the furthest it should be scrolled to.
#[derive(Debug, Clone, Copy, PartialEq, Eq, Structural)]
pub struct Overscroll {
    /// The offset is not zero.
    pub is_scrolled: bool,
    /// The offset is less than `max_x`.
    pub is_beyond_end: bool,
    /// The offset that shows the last item at the end of the viewport.
    pub max_x: Pixels,
}

/// One prepaint pass over a list: the offset shared with the container, and the
/// logical offset that the pass draws at.
#[derive(Debug, Clone, Copy, PartialEq, Eq, Structural)]
pub struct HListPrepaint {
    /// The list.
    pub list: HList,
    /// The scroll request to apply, if there is one.
    pub request: Option<HListDeferredScroll>,
    /// The offset shared with the container.
    pub shared_offset: ScrollOffset,
    /// The offset that the pass draws at.
    pub logical_offset: ScrollOffset,
}

/// A pass after a list that is scrolled beyond its end was brought back. Only
/// the shared offset moves; the pass itself still draws where the list was.
pub open spec fn overscroll_limited(pass: HListPrepaint, overscroll: Overscroll) -> HListPrepaint {
    if pass.list.item_count > 0 && overscroll.is_scrolled && overscroll.is_beyond_end {
        HListPrepaint {
            shared_offset: ScrollOffset { x: overscroll.max_x, ..pass.shared_offset },
            ..pass
        }
    } else {
        pass
    }
}

/// A pass after its scroll request was applied: the pass draws at the shared
/// offset, wherever the request moved it.
pub open spec fn request_applied(
    pass: HListPrepaint,
    place: ItemPlace,
    aligned: AlignedOffsets,
) -> HListPrepaint {
    match pass.request {
        Some(request) if pass.list.item_count > 0 => {
            let offset = scrolled_to(pass.shared_offset, request, place, aligned);
            HListPrepaint { shared_offset: offset, logical_offset: offset, ..pass }
        },
        _ => pass,
    }
}

/// The offset that a pass draws at. Without a request to apply, a list with a
/// handle follows its animation.
pub open spec fn drawn_offset(pass: HListPrepaint, animated_x: Pixels) -> ScrollOffset {
    if pass.list.scroll_handle is Some && pass.request is None {
        ScrollOffset { x: animated_x, ..pass.logical_offset }
    } else {
        pass.logical_offset
    }
}

impl HListPrepaint {
    /// Begin a pass over a list, with the scroll request that was taken for it.
    pub fn new(
        list: HList,
        request: Option<HListDeferredScroll>,
        shared_offset: ScrollOffset,
        logical_offset: ScrollOffset,
    ) -> (pass: Self)
        ensures
            pass == (HListPrepaint { list, request, shared_offset, logical_offset }),
    {
        HListPrepaint { list, request, shared_offset, logical_offset }
    }

    /// Bring a list back that is scrolled beyond its end.
    pub fn limit_overscroll(&mut self, overscroll: Overscroll)
        ensures
            *final(self) == overscroll_limited(*old(self), overscroll),
    {
        if self.list.item_count > 0 && overscroll.is_scrolled && overscroll.is_beyond_end {
            self.shared_offset.x = overscroll.max_x;
        }
    }

    /// Apply the scroll request, if there is one, to an item at `place`, which
    /// `aligned` would bring into view.
    pub fn apply_request(&mut self, place: ItemPlace, aligned: AlignedOffsets)
        ensures
            *final(self) == request_applied(*old(self), place, aligned),
    {
        if self.list.item_count > 0 {
            if let Some(request) = self.request {
                self.shared_offset.scroll_to(&request, place, aligned);
                self.logical_offset = self.shared_offset;
            }
        }
    }

    /// Whether the pass ends the animation of the list's handle, in place of
    /// advancing it.
    pub fn settles(&self) -> (settles: bool)
        ensures
            settles == (self.list.item_count > 0 && self.list.scroll_handle is Some
                && self.request is Some),
    {
        self.list.item_count > 0 && self.list.scroll_handle.is_some() && self.request.is_some()
    }

    /// The offset to draw at, where the animation stands at `animated_x`.
    pub fn drawn_offset(&self, animated_x: Pixels) -> (offset: ScrollOffset)
        ensures
            offset == drawn_offset(*self, animated_x),
    {
        if self.list.scroll_handle.is_some() && self.request.is_none() {
            ScrollOffset { x: animated_x, y: self.logical_offset.y }
        } else {
            self.logical_offset
        }
    }
}

/// The state of a list's handle after a pass: the shared offset is where the
/// pass moved it, and where a request was applied the animation rests there.
pub open spec fn prepaint_concluded(
    state: HListScrollState,
    pass: HListPrepaint,
) -> HListScrollState {
    HListScrollState {
        base_handle: ScrollHandle { offset: pass.shared_offset },
        smooth_scroll: if pass.list.item_count > 0 && pass.request is Some {
            resting_at(pass.logical_offset.x)
        } else {
            state.smooth_scroll
        },
        ..state
    }
}

/// End a pass over a list that `handle` controls: move the shared offset, and
/// settle the animation where a request was applied. Returns whether it
/// settled; where it did not, the caller advances the animation of a list that
/// has items.
pub fn conclude_prepaint(
    states: &mut HListScrollStates,
    handle: HListScrollHandle,
    pass: &HListPrepaint,
) -> (settled: bool)
    requires
        handle.0 < old(states)@.len(),
        pass.list.scroll_handle == Some(handle),
    ensures
        settled == (pass.list.item_count > 0 && pass.request is Some),
        final(states)@ == old(states)@.update(
            handle.0 as int,
            prepaint_concluded(old(states)@[handle.0 as int], *pass),
        ),
{
    states.set_offset(handle, pass.shared_offset);
    let settled: bool = pass.settles();
    if settled {
        states.states[handle.0].settle(pass.logical_offset.x);
    }
    assert(states@ == old(states)@.update(
        handle.0 as int,
        prepaint_concluded(old(states)@[handle.0 as int], *pass),
    ));
    settled
}

/// What a whole prepaint pass leaves in the state of a list's handle: the
/// measured size is noted and the request is gone. Without a request the
/// animation goes on, and only a list scrolled beyond its end is moved. With one,
/// the list and its animation are at the offset that the request led to. A list
/// without items is not moved.
pub proof fn law_prepaint_pass(
    state: HListScrollState,
    list: HList,
    size: HListItemSize,
    overscroll: Overscroll,
    place: ItemPlace,
    aligned: AlignedOffsets,
)
    ensures
        ({
            let begun = HListScrollState {
                last_item_size: Some(size),
                deferred_scroll_to_item: None,
                ..state
            };
            let pass = HListPrepaint {
                list,
                request: state.deferred_scroll_to_item,
                shared_offset: state.base_handle.offset,
                logical_offset: state.base_handle.offset,
            };
            let limited = overscroll_limited(pass, overscroll);
            let after = prepaint_concluded(begun, request_applied(limited, place, aligned));
            &&& after.last_item_size == Some(size)
            &&& after.deferred_scroll_to_item is None
            &&& list.item_count == 0 ==> after == begun
            &&& list.item_count > 0 ==> match state.deferred_scroll_to_item {
                Some(request) => {
                    let offset = scrolled_to(limited.shared_offset, request, place, aligned);
                    &&& after.base_handle.offset == offset
                    &&& after.smooth_scroll == resting_at(offset.x)
                },
                None => {
                    &&& after.base_handle.offset == limited.shared_offset
                    &&& after.smooth_scroll == state.smooth_scroll
                },
            }
        }),
{
}

/// A request that is not strict does not scroll where the item is visible.
pub proof fn law_visible_item_stays(
    offset: ScrollOffset,
    request: HListDeferredScroll,
    aligned: AlignedOffsets,
)
    requires
        !request.scroll_strict,
    ensures
        scrolled_to(offset, request, ItemPlace { is_before: false, is_after: false }, aligned)
            == offset,
{
}

/// A strict request scrolls to match its strategy wherever the item is.
pub proof fn law_strict_request_aligns(
    offset: ScrollOffset,
    request: HListDeferredScroll,
    place: ItemPlace,
    aligned: AlignedOffsets,
)
    requires
        request.scroll_strict,
        request.strategy != HListScrollStrategy::Nearest,
    ensures
        scrolled_to(offset, request, place, aligned).x == match request.strategy {
            HListScrollStrategy::Start => aligned.start,
            HListScrollStrategy::Center => aligned.center,
            _ => aligned.end,
        },
{
}

/// A request for the nearest edge scrolls only where the item is not visible,
/// and then to the edge the item is beyond.
pub proof fn law_nearest_scrolls_least(
    offset: ScrollOffset,
    request: HListDeferredScroll,
    place: ItemPlace,
    aligned: AlignedOffsets,
)
    requires
        request.strategy == HListScrollStrategy::Nearest,
    ensures
        scrolled_to(offset, request, place, aligned).x == if place.is_before {
            aligned.start
        } else if place.is_after {
            aligned.end
        } else {
            offset.x
        },
{
}

/// Scrolling to an item never moves a list vertically.
pub proof fn law_scroll_is_horizontal(
    offset: ScrollOffset,
    request: HListDeferredScroll,
    place: ItemPlace,
    aligned: AlignedOffsets,
)
    ensures
        scrolled_to(offset, request, place, aligned).y == offset.y,
{
}

/// A list jumps to where a request scrolls it: the pass that applies the
/// request draws at the offset that the container is left with, whatever the
/// animation says.
pub proof fn law_request_is_not_animated(
    pass: HListPrepaint,
    place: ItemPlace,
    aligned: AlignedOffsets,
    animated_x: Pixels,
)
    requires
        pass.list.item_count > 0,
        pass.request is Some,
    ensures
        ({
            let after = request_applied(pass, place, aligned);
            drawn_offset(after, animated_x) == after.shared_offset
        }),
{
}

/// A list without items is never scrolled.
pub proof fn law_empty_list_stays(
    pass: HListPrepaint,
    overscroll: Overscroll,
    place: ItemPlace,
    aligned: AlignedOffsets,
)
    requires
        pass.list.item_count == 0,
    ensures
        request_applied(overscroll_limited(pass, overscroll), place, aligned) == pass,
{
}

} // verus!
