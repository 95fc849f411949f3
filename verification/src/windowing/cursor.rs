//! Cursor shapes.
use vstd::prelude::*;

verus! {

/// A cursor shape.
#[derive(Debug, Clone, Copy, PartialEq, Eq, Hash, Default, Structural)]
pub enum CursorIcon {
    #[default]
    Default,
    ContextMenu,
    Help,
    Pointer,
    Progress,
    Wait,
    Cell,
    Crosshair,
    Text,
    VerticalText,
    Alias,
    Copy,
    Move,
    NoDrop,
    NotAllowed,
    Grab,
    Grabbing,
    EResize,
    NResize,
    NeResize,
    NwResize,
    SResize,
    SeResize,
    SwResize,
    WResize,
    EwResize,
    NsResize,
    NeswResize,
    NwseResize,
    ColResize,
    RowResize,
    AllScroll,
    ZoomIn,
    ZoomOut,
}

/// The name of a shape in style sheets, which is also how the windowing system
/// knows it.
pub open spec fn css_name(icon: CursorIcon) -> Seq<char> {
    match icon {
        CursorIcon::Default => "default"@,
        CursorIcon::ContextMenu => "context-menu"@,
        CursorIcon::Help => "help"@,
        CursorIcon::Pointer => "pointer"@,
        CursorIcon::Progress => "progress"@,
        CursorIcon::Wait => "wait"@,
        CursorIcon::Cell => "cell"@,
        CursorIcon::Crosshair => "crosshair"@,
        CursorIcon::Text => "text"@,
        CursorIcon::VerticalText => "vertical-text"@,
        CursorIcon::Alias => "alias"@,
        CursorIcon::Copy => "copy"@,
        CursorIcon::Move => "move"@,
        CursorIcon::NoDrop => "no-drop"@,
        CursorIcon::NotAllowed => "not-allowed"@,
        CursorIcon::Grab => "grab"@,
        CursorIcon::Grabbing => "grabbing"@,
        CursorIcon::EResize => "e-resize"@,
        CursorIcon::NResize => "n-resize"@,
        CursorIcon::NeResize => "ne-resize"@,
        CursorIcon::NwResize => "nw-resize"@,
        CursorIcon::SResize => "s-resize"@,
        CursorIcon::SeResize => "se-resize"@,
        CursorIcon::SwResize => "sw-resize"@,
        CursorIcon::WResize => "w-resize"@,
        CursorIcon::EwResize => "ew-resize"@,
        CursorIcon::NsResize => "ns-resize"@,
        CursorIcon::NeswResize => "nesw-resize"@,
        CursorIcon::NwseResize => "nwse-resize"@,
        CursorIcon::ColResize => "col-resize"@,
        CursorIcon::RowResize => "row-resize"@,
        CursorIcon::AllScroll => "all-scroll"@,
        CursorIcon::ZoomIn => "zoom-in"@,
        CursorIcon::ZoomOut => "zoom-out"@,
    }
}

impl CursorIcon {
    /// The name by which the windowing system knows the shape.
    pub fn to_winit(self) -> (r: &'static str)
        ensures
            r@ == css_name(self),
    {
        match self {
            CursorIcon::Default => "default",
            CursorIcon::ContextMenu => "context-menu",
            CursorIcon::Help => "help",
            CursorIcon::Pointer => "pointer",
            CursorIcon::Progress => "progress",
            CursorIcon::Wait => "wait",
            CursorIcon::Cell => "cell",
            CursorIcon::Crosshair => "crosshair",
            CursorIcon::Text => "text",
            CursorIcon::VerticalText => "vertical-text",
            CursorIcon::Alias => "alias",
            CursorIcon::Copy => "copy",
            CursorIcon::Move => "move",
            CursorIcon::NoDrop => "no-drop",
            CursorIcon::NotAllowed => "not-allowed",
            CursorIcon::Grab => "grab",
            CursorIcon::Grabbing => "grabbing",
            CursorIcon::EResize => "e-resize",
            CursorIcon::NResize => "n-resize",
            CursorIcon::NeResize => "ne-resize",
            CursorIcon::NwResize => "nw-resize",
            CursorIcon::SResize => "s-resize",
            CursorIcon::SeResize => "se-resize",
            CursorIcon::SwResize => "sw-resize",
            CursorIcon::WResize => "w-resize",
            CursorIcon::EwResize => "ew-resize",
            CursorIcon::NsResize => "ns-resize",
            CursorIcon::NeswResize => "nesw-resize",
            CursorIcon::NwseResize => "nwse-resize",
            CursorIcon::ColResize => "col-resize",
            CursorIcon::RowResize => "row-resize",
            CursorIcon::AllScroll => "all-scroll",
            CursorIcon::ZoomIn => "zoom-in",
            CursorIcon::ZoomOut => "zoom-out",
        }
    }
}

/// Law: each shape goes by its own name, so the cursor that is shown is the one that
/// the page asked for.
pub proof fn law_shapes_go_by_their_names(icon: CursorIcon)
    ensures
        icon is Default ==> css_name(icon) == "default"@,
        icon is ContextMenu ==> css_name(icon) == "context-menu"@,
        icon is Help ==> css_name(icon) == "help"@,
        icon is Pointer ==> css_name(icon) == "pointer"@,
        icon is Progress ==> css_name(icon) == "progress"@,
        icon is Wait ==> css_name(icon) == "wait"@,
        icon is Cell ==> css_name(icon) == "cell"@,
        icon is Crosshair ==> css_name(icon) == "crosshair"@,
        icon is Text ==> css_name(icon) == "text"@,
        icon is VerticalText ==> css_name(icon) == "vertical-text"@,
        icon is Alias ==> css_name(icon) == "alias"@,
        icon is Copy ==> css_name(icon) == "copy"@,
        icon is Move ==> css_name(icon) == "move"@,
        icon is NoDrop ==> css_name(icon) == "no-drop"@,
        icon is NotAllowed ==> css_name(icon) == "not-allowed"@,
        icon is Grab ==> css_name(icon) == "grab"@,
        icon is Grabbing ==> css_name(icon) == "grabbing"@,
        icon is EResize ==> css_name(icon) == "e-resize"@,
        icon is NResize ==> css_name(icon) == "n-resize"@,
        icon is NeResize ==> css_name(icon) == "ne-resize"@,
        icon is NwResize ==> css_name(icon) == "nw-resize"@,
        icon is SResize ==> css_name(icon) == "s-resize"@,
        icon is SeResize ==> css_name(icon) == "se-resize"@,
        icon is SwResize ==> css_name(icon) == "sw-resize"@,
        icon is WResize ==> css_name(icon) == "w-resize"@,
        icon is EwResize ==> css_name(icon) == "ew-resize"@,
        icon is NsResize ==> css_name(icon) == "ns-resize"@,
        icon is NeswResize ==> css_name(icon) == "nesw-resize"@,
        icon is NwseResize ==> css_name(icon) == "nwse-resize"@,
        icon is ColResize ==> css_name(icon) == "col-resize"@,
        icon is RowResize ==> css_name(icon) == "row-resize"@,
        icon is AllScroll ==> css_name(icon) == "all-scroll"@,
        icon is ZoomIn ==> css_name(icon) == "zoom-in"@,
        icon is ZoomOut ==> css_name(icon) == "zoom-out"@,
{
}

} // verus!
