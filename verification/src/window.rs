use vstd::prelude::*;

verus! {

/// NSWindowStyleMaskTitled.
pub const STYLE_TITLED: u64 = 1;
/// NSWindowStyleMaskClosable.
pub const STYLE_CLOSABLE: u64 = 2;
/// NSWindowStyleMaskMiniaturizable.
pub const STYLE_MINIATURIZABLE: u64 = 4;
/// NSWindowStyleMaskResizable.
pub const STYLE_RESIZABLE: u64 = 8;
/// NSBackingStoreBuffered.
pub const BACKING_BUFFERED: u64 = 2;
/// NSNoBorder.
pub const BORDER_NONE: u64 = 0;
/// NSViewWidthSizable.
pub const VIEW_WIDTH_SIZABLE: u64 = 2;
/// NSApplicationActivationPolicyRegular: a dock icon and a menu bar.
pub const ACTIVATION_POLICY_REGULAR: u64 = 0;

/// The integer and flag settings of the application, its window, scroll view and text view.
/// (Frame sizes and the font size are floating point and stay with the front end.)
#[derive(Debug, Clone, Copy, PartialEq, Eq, Structural)]
pub struct WindowSettings {
    pub activation_policy: u64,
    pub style_mask: u64,
    pub backing: u64,
    pub defer: bool,
    pub has_vertical_scroller: bool,
    pub has_horizontal_scroller: bool,
    pub border_type: u64,
    pub editable: bool,
    pub selectable: bool,
    pub rich_text: bool,
    pub vertically_resizable: bool,
    pub horizontally_resizable: bool,
    pub allows_undo: bool,
    pub autoresizing_mask: u64,
    pub width_tracks_text_view: bool,
}

/// The settings of the editor window: a titled, closable, miniaturizable, resizable window
/// with a buffered backing store, created at once; a borderless scroll view with only a
/// vertical scroller; a plain-text view that can be edited, selected and undone, grows
/// vertically, tracks the scroll view's width and wraps at it.
pub fn window_settings() -> (w: WindowSettings)
    ensures
        w.activation_policy == ACTIVATION_POLICY_REGULAR,
        w.style_mask == 15,
        w.style_mask & STYLE_TITLED != 0,
        w.style_mask & STYLE_CLOSABLE != 0,
        w.style_mask & STYLE_MINIATURIZABLE != 0,
        w.style_mask & STYLE_RESIZABLE != 0,
        w.backing == BACKING_BUFFERED,
        !w.defer,
        w.has_vertical_scroller,
        !w.has_horizontal_scroller,
        w.border_type == BORDER_NONE,
        w.editable,
        w.selectable,
        !w.rich_text,
        w.vertically_resizable,
        !w.horizontally_resizable,
        w.allows_undo,
        w.autoresizing_mask == VIEW_WIDTH_SIZABLE,
        w.width_tracks_text_view,
{
    let style_mask = STYLE_TITLED | STYLE_CLOSABLE | STYLE_MINIATURIZABLE | STYLE_RESIZABLE;
    assert(style_mask == 15) by (bit_vector)
        requires
            style_mask == 1u64 | 2u64 | 4u64 | 8u64,
    ;
    assert(style_mask & 1 != 0 && style_mask & 2 != 0 && style_mask & 4 != 0 && style_mask & 8
        != 0) by (bit_vector)
        requires
            style_mask == 15u64,
    ;
    WindowSettings {
        activation_policy: ACTIVATION_POLICY_REGULAR,
        style_mask,
        backing: BACKING_BUFFERED,
        defer: false,
        has_vertical_scroller: true,
        has_horizontal_scroller: false,
        border_type: BORDER_NONE,
        editable: true,
        selectable: true,
        rich_text: false,
        vertically_resizable: true,
        horizontally_resizable: false,
        allows_undo: true,
        autoresizing_mask: VIEW_WIDTH_SIZABLE,
        width_tracks_text_view: true,
    }
}

} // verus!
