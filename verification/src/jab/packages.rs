//! Constants and plain-value records of the Java Access Bridge interface.
//!
//! The role strings are the ones the bridge reports in `AccessibleContextInfo::role`;
//! the sizes are the capacities of the fixed arrays in the bridge's records.
use vstd::prelude::*;

verus! {

pub const ACCESSIBLE_ALERT: &'static str = "alert";
pub const ACCESSIBLE_COLUMN_HEADER: &'static str = "column header";
pub const ACCESSIBLE_CANVAS: &'static str = "canvas";
pub const ACCESSIBLE_COMBO_BOX: &'static str = "combo box";
pub const ACCESSIBLE_DESKTOP_ICON: &'static str = "desktop icon";
pub const ACCESSIBLE_INTERNAL_FRAME: &'static str = "internal frame";
pub const ACCESSIBLE_DESKTOP_PANE: &'static str = "desktop pane";
pub const ACCESSIBLE_OPTION_PANE: &'static str = "option pane";
pub const ACCESSIBLE_WINDOW: &'static str = "window";
pub const ACCESSIBLE_FRAME: &'static str = "frame";
pub const ACCESSIBLE_DIALOG: &'static str = "dialog";
pub const ACCESSIBLE_COLOR_CHOOSER: &'static str = "color chooser";
pub const ACCESSIBLE_DIRECTORY_PANE: &'static str = "directory pane";
pub const ACCESSIBLE_FILE_CHOOSER: &'static str = "file chooser";
pub const ACCESSIBLE_FILLER: &'static str = "filler";
pub const ACCESSIBLE_HYPERLINK: &'static str = "hyperlink";
pub const ACCESSIBLE_ICON: &'static str = "icon";
pub const ACCESSIBLE_LABEL: &'static str = "label";
pub const ACCESSIBLE_ROOT_PANE: &'static str = "root pane";
pub const ACCESSIBLE_GLASS_PANE: &'static str = "glass pane";
pub const ACCESSIBLE_LAYERED_PANE: &'static str = "layered pane";
pub const ACCESSIBLE_LIST: &'static str = "list";
pub const ACCESSIBLE_LIST_ITEM: &'static str = "list item";
pub const ACCESSIBLE_MENU_BAR: &'static str = "menu bar";
pub const ACCESSIBLE_POPUP_MENU: &'static str = "popup menu";
pub const ACCESSIBLE_MENU: &'static str = "menu";
pub const ACCESSIBLE_MENU_ITEM: &'static str = "menu item";
pub const ACCESSIBLE_SEPARATOR: &'static str = "separator";
pub const ACCESSIBLE_PAGE_TAB_LIST: &'static str = "page tab list";
pub const ACCESSIBLE_PAGE_TAB: &'static str = "page tab";
pub const ACCESSIBLE_PANEL: &'static str = "panel";
pub const ACCESSIBLE_PROGRESS_BAR: &'static str = "progress bar";
pub const ACCESSIBLE_PASSWORD_TEXT: &'static str = "password text";
pub const ACCESSIBLE_PUSH_BUTTON: &'static str = "push button";
pub const ACCESSIBLE_TOGGLE_BUTTON: &'static str = "toggle button";
pub const ACCESSIBLE_CHECK_BOX: &'static str = "check box";
pub const ACCESSIBLE_RADIO_BUTTON: &'static str = "radio button";
pub const ACCESSIBLE_ROW_HEADER: &'static str = "row header";
pub const ACCESSIBLE_SCROLL_PANE: &'static str = "scroll pane";
pub const ACCESSIBLE_SCROLL_BAR: &'static str = "scroll bar";
pub const ACCESSIBLE_VIEWPORT: &'static str = "viewport";
pub const ACCESSIBLE_SLIDER: &'static str = "slider";
pub const ACCESSIBLE_SPLIT_PANE: &'static str = "split pane";
pub const ACCESSIBLE_TABLE: &'static str = "table";
pub const ACCESSIBLE_TEXT: &'static str = "text";
pub const ACCESSIBLE_TREE: &'static str = "tree";
pub const ACCESSIBLE_TOOL_BAR: &'static str = "tool bar";
pub const ACCESSIBLE_TOOL_TIP: &'static str = "tool tip";
pub const ACCESSIBLE_AWT_COMPONENT: &'static str = "awt component";
pub const ACCESSIBLE_SWING_COMPONENT: &'static str = "swing component";
pub const ACCESSIBLE_UNKNOWN: &'static str = "unknown";
pub const ACCESSIBLE_STATUS_BAR: &'static str = "status bar";
pub const ACCESSIBLE_DATE_EDITOR: &'static str = "date editor";
pub const ACCESSIBLE_SPIN_BOX: &'static str = "spin box";
pub const ACCESSIBLE_FONT_CHOOSER: &'static str = "font chooser";
pub const ACCESSIBLE_GROUP_BOX: &'static str = "group box";
pub const ACCESSIBLE_HEADER: &'static str = "header";
pub const ACCESSIBLE_FOOTER: &'static str = "footer";
pub const ACCESSIBLE_PARAGRAPH: &'static str = "paragraph";
pub const ACCESSIBLE_RULER: &'static str = "ruler";
pub const ACCESSIBLE_EDITBAR: &'static str = "editbar";
pub const PROGRESS_MONITOR: &'static str = "progress monitor";

/// Capacity, in UTF-16 units, of the long strings of the bridge's records.
pub const MAX_STRING_SIZE: usize = 1024;

/// Capacity, in UTF-16 units, of the short strings of the bridge's records.
pub const SHORT_STRING_SIZE: usize = 256;

/// Capacity of the action table of `AccessibleActions`.
pub const MAX_ACTION_INFO: usize = 256;

/// Capacity of the action table of `AccessibleActionsToDo`.
pub const MAX_ACTIONS_TO_DO: usize = 32;

/// A Java object handle as the bridge passes it (64-bit bridge).
pub type JObject64 = i64;

/// `AccessibleContextInfo`: what the bridge reports of an accessible object.
/// The strings are the bridge's zero-terminated UTF-16 buffers, unit by unit.
pub struct ContextInfo {
    pub name: Vec<u16>,
    pub description: Vec<u16>,
    pub role: Vec<u16>,
    pub role_en_us: Vec<u16>,
    pub states: Vec<u16>,
    pub states_en_us: Vec<u16>,
    pub index_in_parent: i32,
    pub children_count: i32,
    pub x: i32,
    pub y: i32,
    pub width: i32,
    pub height: i32,
    pub accessible_component: i32,
    pub accessible_action: i32,
    pub accessible_selection: i32,
    pub accessible_text: i32,
    pub accessible_interfaces: i32,
}

/// `AccessibleActions`: a count and the table of action names.
pub struct ActionsInfo {
    pub actions_count: i32,
    pub action_names: Vec<Vec<u16>>,
}

/// `AccessibleActionsToDo`: the actions to perform, each a name buffer of
/// `SHORT_STRING_SIZE` units, at most `MAX_ACTIONS_TO_DO` of them.
pub struct ActionsToDo {
    pub actions_count: i32,
    pub actions: Vec<Vec<u16>>,
}

/// `AccessibleRelationInfo`: a relation's key and the objects it relates to.
pub struct RelationInfo {
    pub key: Vec<u16>,
    pub target_count: i32,
    pub targets: Vec<JObject64>,
}

/// `AccessibleRelationSetInfo`: a count and the table of relations.
pub struct RelationSetInfo {
    pub relation_count: i32,
    pub relations: Vec<RelationInfo>,
}

/// `AccessibleKeyBindingInfo`: a key and its modifiers.
pub struct KeyBindingInfo {
    pub character: u16,
    pub modifiers: i32,
}

/// `AccessibleKeyBindings`: a count and the table of key bindings.
pub struct KeyBindingsInfo {
    pub key_bindings_count: i32,
    pub key_binding_info: Vec<KeyBindingInfo>,
}

/// `AccessibleIconInfo`: an icon's description and size.
pub struct IconInfo {
    pub description: Vec<u16>,
    pub height: i32,
    pub width: i32,
}

/// `AccessibleIcons`: a count and the table of icons.
pub struct IconsInfo {
    pub icons_count: i32,
    pub icon_info: Vec<IconInfo>,
}

/// `VisibleChildrenInfo`: the number of children returned and their handles.
pub struct VisibleChildrenInfo {
    pub returned_children_count: i32,
    pub children: Vec<JObject64>,
}

/// `AccessibleTextSelectionInfo`.
pub struct TextSelectionInfo {
    pub selection_start_index: i32,
    pub selection_end_index: i32,
    pub selected_text: Vec<u16>,
}

/// `AccessibleTextInfo`.
pub struct TextInfo {
    pub char_count: i32,
    pub caret_index: i32,
    pub index_at_point: i32,
}

/// `AccessibleTextItemsInfo`: the letter, word and sentence at an index.
pub struct TextItemsInfo {
    pub letter: u16,
    pub word: Vec<u16>,
    pub sentence: Vec<u16>,
}

/// `AccessibleTextRectInfo`.
pub struct TextRectInfo {
    pub x: i32,
    pub y: i32,
    pub width: i32,
    pub height: i32,
}

/// `AccessibleTableInfo`.
pub struct TableInfo {
    pub caption: JObject64,
    pub summary: JObject64,
    pub row_count: i32,
    pub column_count: i32,
    pub accessible_context: JObject64,
    pub accessible_table: JObject64,
}

/// `AccessibleTableCellInfo`.
pub struct TableCellInfo {
    pub accessible_context: JObject64,
    pub index: i32,
    pub row: i32,
    pub column: i32,
    pub row_extent: i32,
    pub column_extent: i32,
    pub is_selected: i32,
}

} // verus!
