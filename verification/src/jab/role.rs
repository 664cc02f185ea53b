//! The roles of accessible objects, and their names as the bridge reports them.
use vstd::prelude::*;

use crate::jab::packages::{
    ACCESSIBLE_ALERT, ACCESSIBLE_COLUMN_HEADER, ACCESSIBLE_CANVAS, ACCESSIBLE_COMBO_BOX, ACCESSIBLE_DESKTOP_ICON, ACCESSIBLE_INTERNAL_FRAME, ACCESSIBLE_DESKTOP_PANE, ACCESSIBLE_OPTION_PANE, ACCESSIBLE_WINDOW, ACCESSIBLE_FRAME, ACCESSIBLE_DIALOG, ACCESSIBLE_COLOR_CHOOSER, ACCESSIBLE_DIRECTORY_PANE, ACCESSIBLE_FILE_CHOOSER, ACCESSIBLE_FILLER, ACCESSIBLE_HYPERLINK, ACCESSIBLE_ICON, ACCESSIBLE_LABEL, ACCESSIBLE_ROOT_PANE, ACCESSIBLE_GLASS_PANE, ACCESSIBLE_LAYERED_PANE, ACCESSIBLE_LIST, ACCESSIBLE_LIST_ITEM, ACCESSIBLE_MENU_BAR, ACCESSIBLE_POPUP_MENU, ACCESSIBLE_MENU, ACCESSIBLE_MENU_ITEM, ACCESSIBLE_SEPARATOR, ACCESSIBLE_PAGE_TAB_LIST, ACCESSIBLE_PAGE_TAB, ACCESSIBLE_PANEL, ACCESSIBLE_PROGRESS_BAR, ACCESSIBLE_PASSWORD_TEXT, ACCESSIBLE_PUSH_BUTTON, ACCESSIBLE_TOGGLE_BUTTON, ACCESSIBLE_CHECK_BOX, ACCESSIBLE_RADIO_BUTTON, ACCESSIBLE_ROW_HEADER, ACCESSIBLE_SCROLL_PANE, ACCESSIBLE_SCROLL_BAR, ACCESSIBLE_VIEWPORT, ACCESSIBLE_SLIDER, ACCESSIBLE_SPLIT_PANE, ACCESSIBLE_TABLE, ACCESSIBLE_TEXT, ACCESSIBLE_TREE, ACCESSIBLE_TOOL_BAR, ACCESSIBLE_TOOL_TIP, ACCESSIBLE_AWT_COMPONENT, ACCESSIBLE_SWING_COMPONENT, ACCESSIBLE_UNKNOWN, ACCESSIBLE_STATUS_BAR, ACCESSIBLE_DATE_EDITOR, ACCESSIBLE_SPIN_BOX, ACCESSIBLE_FONT_CHOOSER, ACCESSIBLE_GROUP_BOX, ACCESSIBLE_HEADER, ACCESSIBLE_FOOTER, ACCESSIBLE_PARAGRAPH, ACCESSIBLE_RULER, ACCESSIBLE_EDITBAR, PROGRESS_MONITOR,
};
use crate::utils::str_equals;

verus! {

/// The role of an accessible object (the `AccessibleRole` names of the US locale).
#[derive(Debug, Clone, Copy, PartialEq, Eq, Structural)]
pub enum AccessibleRole {
    Alert,
    ColumnHeader,
    Canvas,
    ComboBox,
    DesktopIcon,
    InternalFrame,
    DesktopPane,
    OptionPane,
    Window,
    Frame,
    Dialog,
    ColorChooser,
    DirectoryPane,
    FileChooser,
    Filler,
    Hyperlink,
    Icon,
    Label,
    RootPane,
    GlassPane,
    LayeredPane,
    List,
    ListItem,
    MenuBar,
    PopupMenu,
    Menu,
    MenuItem,
    SEPARATOR,
    PageTabList,
    PageTab,
    Panel,
    ProgressBar,
    PasswordText,
    PushButton,
    ToggleButton,
    CheckBox,
    RadioButton,
    RowHeader,
    ScrollPane,
    ScrollBar,
    Viewport,
    Slider,
    SplitPane,
    Table,
    Text,
    Tree,
    ToolBar,
    ToolTip,
    AwtComponent,
    SwingComponent,
    Unknown,
    StatusBar,
    DateEditor,
    SpinBox,
    FontChooser,
    GroupBox,
    Header,
    Footer,
    Paragraph,
    Ruler,
    EditBar,
    ProgressMonitor,
}

/// The name under which the bridge reports `role`.
pub open spec fn role_name(role: AccessibleRole) -> Seq<char> {
    match role {
        AccessibleRole::Alert => ACCESSIBLE_ALERT@,
        AccessibleRole::ColumnHeader => ACCESSIBLE_COLUMN_HEADER@,
        AccessibleRole::Canvas => ACCESSIBLE_CANVAS@,
        AccessibleRole::ComboBox => ACCESSIBLE_COMBO_BOX@,
        AccessibleRole::DesktopIcon => ACCESSIBLE_DESKTOP_ICON@,
        AccessibleRole::InternalFrame => ACCESSIBLE_INTERNAL_FRAME@,
        AccessibleRole::DesktopPane => ACCESSIBLE_DESKTOP_PANE@,
        AccessibleRole::OptionPane => ACCESSIBLE_OPTION_PANE@,
        AccessibleRole::Window => ACCESSIBLE_WINDOW@,
        AccessibleRole::Frame => ACCESSIBLE_FRAME@,
        AccessibleRole::Dialog => ACCESSIBLE_DIALOG@,
        AccessibleRole::ColorChooser => ACCESSIBLE_COLOR_CHOOSER@,
        AccessibleRole::DirectoryPane => ACCESSIBLE_DIRECTORY_PANE@,
        AccessibleRole::FileChooser => ACCESSIBLE_FILE_CHOOSER@,
        AccessibleRole::Filler => ACCESSIBLE_FILLER@,
        AccessibleRole::Hyperlink => ACCESSIBLE_HYPERLINK@,
        AccessibleRole::Icon => ACCESSIBLE_ICON@,
        AccessibleRole::Label => ACCESSIBLE_LABEL@,
        AccessibleRole::RootPane => ACCESSIBLE_ROOT_PANE@,
        AccessibleRole::GlassPane => ACCESSIBLE_GLASS_PANE@,
        AccessibleRole::LayeredPane => ACCESSIBLE_LAYERED_PANE@,
        AccessibleRole::List => ACCESSIBLE_LIST@,
        AccessibleRole::ListItem => ACCESSIBLE_LIST_ITEM@,
        AccessibleRole::MenuBar => ACCESSIBLE_MENU_BAR@,
        AccessibleRole::PopupMenu => ACCESSIBLE_POPUP_MENU@,
        AccessibleRole::Menu => ACCESSIBLE_MENU@,
        AccessibleRole::MenuItem => ACCESSIBLE_MENU_ITEM@,
        AccessibleRole::SEPARATOR => ACCESSIBLE_SEPARATOR@,
        AccessibleRole::PageTabList => ACCESSIBLE_PAGE_TAB_LIST@,
        AccessibleRole::PageTab => ACCESSIBLE_PAGE_TAB@,
        AccessibleRole::Panel => ACCESSIBLE_PANEL@,
        AccessibleRole::ProgressBar => ACCESSIBLE_PROGRESS_BAR@,
        AccessibleRole::PasswordText => ACCESSIBLE_PASSWORD_TEXT@,
        AccessibleRole::PushButton => ACCESSIBLE_PUSH_BUTTON@,
        AccessibleRole::ToggleButton => ACCESSIBLE_TOGGLE_BUTTON@,
        AccessibleRole::CheckBox => ACCESSIBLE_CHECK_BOX@,
        AccessibleRole::RadioButton => ACCESSIBLE_RADIO_BUTTON@,
        AccessibleRole::RowHeader => ACCESSIBLE_ROW_HEADER@,
        AccessibleRole::ScrollPane => ACCESSIBLE_SCROLL_PANE@,
        AccessibleRole::ScrollBar => ACCESSIBLE_SCROLL_BAR@,
        AccessibleRole::Viewport => ACCESSIBLE_VIEWPORT@,
        AccessibleRole::Slider => ACCESSIBLE_SLIDER@,
        AccessibleRole::SplitPane => ACCESSIBLE_SPLIT_PANE@,
        AccessibleRole::Table => ACCESSIBLE_TABLE@,
        AccessibleRole::Text => ACCESSIBLE_TEXT@,
        AccessibleRole::Tree => ACCESSIBLE_TREE@,
        AccessibleRole::ToolBar => ACCESSIBLE_TOOL_BAR@,
        AccessibleRole::ToolTip => ACCESSIBLE_TOOL_TIP@,
        AccessibleRole::AwtComponent => ACCESSIBLE_AWT_COMPONENT@,
        AccessibleRole::SwingComponent => ACCESSIBLE_SWING_COMPONENT@,
        AccessibleRole::Unknown => ACCESSIBLE_UNKNOWN@,
        AccessibleRole::StatusBar => ACCESSIBLE_STATUS_BAR@,
        AccessibleRole::DateEditor => ACCESSIBLE_DATE_EDITOR@,
        AccessibleRole::SpinBox => ACCESSIBLE_SPIN_BOX@,
        AccessibleRole::FontChooser => ACCESSIBLE_FONT_CHOOSER@,
        AccessibleRole::GroupBox => ACCESSIBLE_GROUP_BOX@,
        AccessibleRole::Header => ACCESSIBLE_HEADER@,
        AccessibleRole::Footer => ACCESSIBLE_FOOTER@,
        AccessibleRole::Paragraph => ACCESSIBLE_PARAGRAPH@,
        AccessibleRole::Ruler => ACCESSIBLE_RULER@,
        AccessibleRole::EditBar => ACCESSIBLE_EDITBAR@,
        AccessibleRole::ProgressMonitor => PROGRESS_MONITOR@,
    }
}

/// Whether `s` is the name of some role.
pub open spec fn is_role_name(s: Seq<char>) -> bool {
    exists|r: AccessibleRole| role_name(r) == s
}

/// The role whose name is `s`; `Unknown` when `s` names no role.
pub open spec fn role_named(s: Seq<char>) -> AccessibleRole {
    if is_role_name(s) {
        choose|r: AccessibleRole| role_name(r) == s
    } else {
        AccessibleRole::Unknown
    }
}

/// Distinct roles have distinct names.
pub proof fn lemma_role_name_injective(r1: AccessibleRole, r2: AccessibleRole)
    requires
        role_name(r1) == role_name(r2),
    ensures
        r1 == r2,
{
    reveal_strlit("alert");
    reveal_strlit("column header");
    reveal_strlit("canvas");
    reveal_strlit("combo box");
    reveal_strlit("desktop icon");
    reveal_strlit("internal frame");
    reveal_strlit("desktop pane");
    reveal_strlit("option pane");
    reveal_strlit("window");
    reveal_strlit("frame");
    reveal_strlit("dialog");
    reveal_strlit("color chooser");
    reveal_strlit("directory pane");
    reveal_strlit("file chooser");
    reveal_strlit("filler");
    reveal_strlit("hyperlink");
    reveal_strlit("icon");
    reveal_strlit("label");
    reveal_strlit("root pane");
    reveal_strlit("glass pane");
    reveal_strlit("layered pane");
    reveal_strlit("list");
    reveal_strlit("list item");
    reveal_strlit("menu bar");
    reveal_strlit("popup menu");
    reveal_strlit("menu");
    reveal_strlit("menu item");
    reveal_strlit("separator");
    reveal_strlit("page tab list");
    reveal_strlit("page tab");
    reveal_strlit("panel");
    reveal_strlit("progress bar");
    reveal_strlit("password text");
    reveal_strlit("push button");
    reveal_strlit("toggle button");
    reveal_strlit("check box");
    reveal_strlit("radio button");
    reveal_strlit("row header");
    reveal_strlit("scroll pane");
    reveal_strlit("scroll bar");
    reveal_strlit("viewport");
    reveal_strlit("slider");
    reveal_strlit("split pane");
    reveal_strlit("table");
    reveal_strlit("text");
    reveal_strlit("tree");
    reveal_strlit("tool bar");
    reveal_strlit("tool tip");
    reveal_strlit("awt component");
    reveal_strlit("swing component");
    reveal_strlit("unknown");
    reveal_strlit("status bar");
    reveal_strlit("date editor");
    reveal_strlit("spin box");
    reveal_strlit("font chooser");
    reveal_strlit("group box");
    reveal_strlit("header");
    reveal_strlit("footer");
    reveal_strlit("paragraph");
    reveal_strlit("ruler");
    reveal_strlit("editbar");
    reveal_strlit("progress monitor");
    let s = role_name(r1);
    let t = role_name(r2);
    assert(s.len() == t.len());
    assert(s[0] == t[0]);
    assert(s[1] == t[1]);
    assert(s[2] == t[2]);
    assert(s[3] == t[3]);
    assert(s[4] == t[4]);
    assert(s[5] == t[5]);
    assert(s[6] == t[6]);
    assert(s[7] == t[7]);
    assert(s[8] == t[8]);
}

/// Reading back the name of a role gives the role again.
pub proof fn lemma_role_named_of_name(r: AccessibleRole)
    ensures
        role_named(role_name(r)) == r,
{
    assert(is_role_name(role_name(r)));
    let c = choose|c: AccessibleRole| role_name(c) == role_name(r);
    lemma_role_name_injective(c, r);
}

/// A name read back as a role other than `Unknown` is exactly that role's name.
pub proof fn lemma_name_of_role_named(s: Seq<char>)
    requires
        role_named(s) != AccessibleRole::Unknown,
    ensures
        role_name(role_named(s)) == s,
{
}

/// Text that names no role is read as `Unknown`; so is the name of `Unknown` itself.
pub proof fn lemma_role_named_unknown(s: Seq<char>)
    ensures
        role_named(s) == AccessibleRole::Unknown <==> (!is_role_name(s) || s == role_name(AccessibleRole::Unknown)),
{
    if is_role_name(s) {
        let c = choose|c: AccessibleRole| role_name(c) == s;
        if s == role_name(AccessibleRole::Unknown) {
            lemma_role_name_injective(c, AccessibleRole::Unknown);
        }
    }
}

impl AccessibleRole {
    /// The name under which the bridge reports this role.
    pub fn to_str(&self) -> (name: &str)
        ensures
            name@ == role_name(*self),
    {
        match self {
            Self::Alert => ACCESSIBLE_ALERT,
            Self::ColumnHeader => ACCESSIBLE_COLUMN_HEADER,
            Self::Canvas => ACCESSIBLE_CANVAS,
            Self::ComboBox => ACCESSIBLE_COMBO_BOX,
            Self::DesktopIcon => ACCESSIBLE_DESKTOP_ICON,
            Self::InternalFrame => ACCESSIBLE_INTERNAL_FRAME,
            Self::DesktopPane => ACCESSIBLE_DESKTOP_PANE,
            Self::OptionPane => ACCESSIBLE_OPTION_PANE,
            Self::Window => ACCESSIBLE_WINDOW,
            Self::Frame => ACCESSIBLE_FRAME,
            Self::Dialog => ACCESSIBLE_DIALOG,
            Self::ColorChooser => ACCESSIBLE_COLOR_CHOOSER,
            Self::DirectoryPane => ACCESSIBLE_DIRECTORY_PANE,
            Self::FileChooser => ACCESSIBLE_FILE_CHOOSER,
            Self::Filler => ACCESSIBLE_FILLER,
            Self::Hyperlink => ACCESSIBLE_HYPERLINK,
            Self::Icon => ACCESSIBLE_ICON,
            Self::Label => ACCESSIBLE_LABEL,
            Self::RootPane => ACCESSIBLE_ROOT_PANE,
            Self::GlassPane => ACCESSIBLE_GLASS_PANE,
            Self::LayeredPane => ACCESSIBLE_LAYERED_PANE,
            Self::List => ACCESSIBLE_LIST,
            Self::ListItem => ACCESSIBLE_LIST_ITEM,
            Self::MenuBar => ACCESSIBLE_MENU_BAR,
            Self::PopupMenu => ACCESSIBLE_POPUP_MENU,
            Self::Menu => ACCESSIBLE_MENU,
            Self::MenuItem => ACCESSIBLE_MENU_ITEM,
            Self::SEPARATOR => ACCESSIBLE_SEPARATOR,
            Self::PageTabList => ACCESSIBLE_PAGE_TAB_LIST,
            Self::PageTab => ACCESSIBLE_PAGE_TAB,
            Self::Panel => ACCESSIBLE_PANEL,
            Self::ProgressBar => ACCESSIBLE_PROGRESS_BAR,
            Self::PasswordText => ACCESSIBLE_PASSWORD_TEXT,
            Self::PushButton => ACCESSIBLE_PUSH_BUTTON,
            Self::ToggleButton => ACCESSIBLE_TOGGLE_BUTTON,
            Self::CheckBox => ACCESSIBLE_CHECK_BOX,
            Self::RadioButton => ACCESSIBLE_RADIO_BUTTON,
            Self::RowHeader => ACCESSIBLE_ROW_HEADER,
            Self::ScrollPane => ACCESSIBLE_SCROLL_PANE,
            Self::ScrollBar => ACCESSIBLE_SCROLL_BAR,
            Self::Viewport => ACCESSIBLE_VIEWPORT,
            Self::Slider => ACCESSIBLE_SLIDER,
            Self::SplitPane => ACCESSIBLE_SPLIT_PANE,
            Self::Table => ACCESSIBLE_TABLE,
            Self::Text => ACCESSIBLE_TEXT,
            Self::Tree => ACCESSIBLE_TREE,
            Self::ToolBar => ACCESSIBLE_TOOL_BAR,
            Self::ToolTip => ACCESSIBLE_TOOL_TIP,
            Self::AwtComponent => ACCESSIBLE_AWT_COMPONENT,
            Self::SwingComponent => ACCESSIBLE_SWING_COMPONENT,
            Self::Unknown => ACCESSIBLE_UNKNOWN,
            Self::StatusBar => ACCESSIBLE_STATUS_BAR,
            Self::DateEditor => ACCESSIBLE_DATE_EDITOR,
            Self::SpinBox => ACCESSIBLE_SPIN_BOX,
            Self::FontChooser => ACCESSIBLE_FONT_CHOOSER,
            Self::GroupBox => ACCESSIBLE_GROUP_BOX,
            Self::Header => ACCESSIBLE_HEADER,
            Self::Footer => ACCESSIBLE_FOOTER,
            Self::Paragraph => ACCESSIBLE_PARAGRAPH,
            Self::Ruler => ACCESSIBLE_RULER,
            Self::EditBar => ACCESSIBLE_EDITBAR,
            Self::ProgressMonitor => PROGRESS_MONITOR,
        }
    }

    /// The role named by `role`; `Unknown` for a name the bridge does not define.
    pub fn from_str(role: &str) -> (result: Self)
        ensures
            result == role_named(role@),
    {
        if str_equals(role, ACCESSIBLE_ALERT) {
            proof { lemma_role_named_of_name(Self::Alert); }
            return Self::Alert;
        }
        if str_equals(role, ACCESSIBLE_COLUMN_HEADER) {
            proof { lemma_role_named_of_name(Self::ColumnHeader); }
            return Self::ColumnHeader;
        }
        if str_equals(role, ACCESSIBLE_CANVAS) {
            proof { lemma_role_named_of_name(Self::Canvas); }
            return Self::Canvas;
        }
        if str_equals(role, ACCESSIBLE_COMBO_BOX) {
            proof { lemma_role_named_of_name(Self::ComboBox); }
            return Self::ComboBox;
        }
        if str_equals(role, ACCESSIBLE_DESKTOP_ICON) {
            proof { lemma_role_named_of_name(Self::DesktopIcon); }
            return Self::DesktopIcon;
        }
        if str_equals(role, ACCESSIBLE_INTERNAL_FRAME) {
            proof { lemma_role_named_of_name(Self::InternalFrame); }
            return Self::InternalFrame;
        }
        if str_equals(role, ACCESSIBLE_DESKTOP_PANE) {
            proof { lemma_role_named_of_name(Self::DesktopPane); }
            return Self::DesktopPane;
        }
        if str_equals(role, ACCESSIBLE_OPTION_PANE) {
            proof { lemma_role_named_of_name(Self::OptionPane); }
            return Self::OptionPane;
        }
        if str_equals(role, ACCESSIBLE_WINDOW) {
            proof { lemma_role_named_of_name(Self::Window); }
            return Self::Window;
        }
        if str_equals(role, ACCESSIBLE_FRAME) {
            proof { lemma_role_named_of_name(Self::Frame); }
            return Self::Frame;
        }
        if str_equals(role, ACCESSIBLE_DIALOG) {
            proof { lemma_role_named_of_name(Self::Dialog); }
            return Self::Dialog;
        }
        if str_equals(role, ACCESSIBLE_COLOR_CHOOSER) {
            proof { lemma_role_named_of_name(Self::ColorChooser); }
            return Self::ColorChooser;
        }
        if str_equals(role, ACCESSIBLE_DIRECTORY_PANE) {
            proof { lemma_role_named_of_name(Self::DirectoryPane); }
            return Self::DirectoryPane;
        }
        if str_equals(role, ACCESSIBLE_FILE_CHOOSER) {
            proof { lemma_role_named_of_name(Self::FileChooser); }
            return Self::FileChooser;
        }
        if str_equals(role, ACCESSIBLE_FILLER) {
            proof { lemma_role_named_of_name(Self::Filler); }
            return Self::Filler;
        }
        if str_equals(role, ACCESSIBLE_HYPERLINK) {
            proof { lemma_role_named_of_name(Self::Hyperlink); }
            return Self::Hyperlink;
        }
        if str_equals(role, ACCESSIBLE_ICON) {
            proof { lemma_role_named_of_name(Self::Icon); }
            return Self::Icon;
        }
        if str_equals(role, ACCESSIBLE_LABEL) {
            proof { lemma_role_named_of_name(Self::Label); }
            return Self::Label;
        }
        if str_equals(role, ACCESSIBLE_ROOT_PANE) {
            proof { lemma_role_named_of_name(Self::RootPane); }
            return Self::RootPane;
        }
        if str_equals(role, ACCESSIBLE_GLASS_PANE) {
            proof { lemma_role_named_of_name(Self::GlassPane); }
            return Self::GlassPane;
        }
        if str_equals(role, ACCESSIBLE_LAYERED_PANE) {
            proof { lemma_role_named_of_name(Self::LayeredPane); }
            return Self::LayeredPane;
        }
        if str_equals(role, ACCESSIBLE_LIST) {
            proof { lemma_role_named_of_name(Self::List); }
            return Self::List;
        }
        if str_equals(role, ACCESSIBLE_LIST_ITEM) {
            proof { lemma_role_named_of_name(Self::ListItem); }
            return Self::ListItem;
        }
        if str_equals(role, ACCESSIBLE_MENU_BAR) {
            proof { lemma_role_named_of_name(Self::MenuBar); }
            return Self::MenuBar;
        }
        if str_equals(role, ACCESSIBLE_POPUP_MENU) {
            proof { lemma_role_named_of_name(Self::PopupMenu); }
            return Self::PopupMenu;
        }
        if str_equals(role, ACCESSIBLE_MENU) {
            proof { lemma_role_named_of_name(Self::Menu); }
            return Self::Menu;
        }
        if str_equals(role, ACCESSIBLE_MENU_ITEM) {
            proof { lemma_role_named_of_name(Self::MenuItem); }
            return Self::MenuItem;
        }
        if str_equals(role, ACCESSIBLE_SEPARATOR) {
            proof { lemma_role_named_of_name(Self::SEPARATOR); }
            return Self::SEPARATOR;
        }
        if str_equals(role, ACCESSIBLE_PAGE_TAB_LIST) {
            proof { lemma_role_named_of_name(Self::PageTabList); }
            return Self::PageTabList;
        }
        if str_equals(role, ACCESSIBLE_PAGE_TAB) {
            proof { lemma_role_named_of_name(Self::PageTab); }
            return Self::PageTab;
        }
        if str_equals(role, ACCESSIBLE_PANEL) {
            proof { lemma_role_named_of_name(Self::Panel); }
            return Self::Panel;
        }
        if str_equals(role, ACCESSIBLE_PROGRESS_BAR) {
            proof { lemma_role_named_of_name(Self::ProgressBar); }
            return Self::ProgressBar;
        }
        if str_equals(role, ACCESSIBLE_PASSWORD_TEXT) {
            proof { lemma_role_named_of_name(Self::PasswordText); }
            return Self::PasswordText;
        }
        if str_equals(role, ACCESSIBLE_PUSH_BUTTON) {
            proof { lemma_role_named_of_name(Self::PushButton); }
            return Self::PushButton;
        }
        if str_equals(role, ACCESSIBLE_TOGGLE_BUTTON) {
            proof { lemma_role_named_of_name(Self::ToggleButton); }
            return Self::ToggleButton;
        }
        if str_equals(role, ACCESSIBLE_CHECK_BOX) {
            proof { lemma_role_named_of_name(Self::CheckBox); }
            return Self::CheckBox;
        }
        if str_equals(role, ACCESSIBLE_RADIO_BUTTON) {
            proof { lemma_role_named_of_name(Self::RadioButton); }
            return Self::RadioButton;
        }
        if str_equals(role, ACCESSIBLE_ROW_HEADER) {
            proof { lemma_role_named_of_name(Self::RowHeader); }
            return Self::RowHeader;
        }
        if str_equals(role, ACCESSIBLE_SCROLL_PANE) {
            proof { lemma_role_named_of_name(Self::ScrollPane); }
            return Self::ScrollPane;
        }
        if str_equals(role, ACCESSIBLE_SCROLL_BAR) {
            proof { lemma_role_named_of_name(Self::ScrollBar); }
            return Self::ScrollBar;
        }
        if str_equals(role, ACCESSIBLE_VIEWPORT) {
            proof { lemma_role_named_of_name(Self::Viewport); }
            return Self::Viewport;
        }
        if str_equals(role, ACCESSIBLE_SLIDER) {
            proof { lemma_role_named_of_name(Self::Slider); }
            return Self::Slider;
        }
        if str_equals(role, ACCESSIBLE_SPLIT_PANE) {
            proof { lemma_role_named_of_name(Self::SplitPane); }
            return Self::SplitPane;
        }
        if str_equals(role, ACCESSIBLE_TABLE) {
            proof { lemma_role_named_of_name(Self::Table); }
            return Self::Table;
        }
        if str_equals(role, ACCESSIBLE_TEXT) {
            proof { lemma_role_named_of_name(Self::Text); }
            return Self::Text;
        }
        if str_equals(role, ACCESSIBLE_TREE) {
            proof { lemma_role_named_of_name(Self::Tree); }
            return Self::Tree;
        }
        if str_equals(role, ACCESSIBLE_TOOL_BAR) {
            proof { lemma_role_named_of_name(Self::ToolBar); }
            return Self::ToolBar;
        }
        if str_equals(role, ACCESSIBLE_TOOL_TIP) {
            proof { lemma_role_named_of_name(Self::ToolTip); }
            return Self::ToolTip;
        }
        if str_equals(role, ACCESSIBLE_AWT_COMPONENT) {
            proof { lemma_role_named_of_name(Self::AwtComponent); }
            return Self::AwtComponent;
        }
        if str_equals(role, ACCESSIBLE_SWING_COMPONENT) {
            proof { lemma_role_named_of_name(Self::SwingComponent); }
            return Self::SwingComponent;
        }
        if str_equals(role, ACCESSIBLE_UNKNOWN) {
            proof { lemma_role_named_of_name(Self::Unknown); }
            return Self::Unknown;
        }
        if str_equals(role, ACCESSIBLE_STATUS_BAR) {
            proof { lemma_role_named_of_name(Self::StatusBar); }
            return Self::StatusBar;
        }
        if str_equals(role, ACCESSIBLE_DATE_EDITOR) {
            proof { lemma_role_named_of_name(Self::DateEditor); }
            return Self::DateEditor;
        }
        if str_equals(role, ACCESSIBLE_SPIN_BOX) {
            proof { lemma_role_named_of_name(Self::SpinBox); }
            return Self::SpinBox;
        }
        if str_equals(role, ACCESSIBLE_FONT_CHOOSER) {
            proof { lemma_role_named_of_name(Self::FontChooser); }
            return Self::FontChooser;
        }
        if str_equals(role, ACCESSIBLE_GROUP_BOX) {
            proof { lemma_role_named_of_name(Self::GroupBox); }
            return Self::GroupBox;
        }
        if str_equals(role, ACCESSIBLE_HEADER) {
            proof { lemma_role_named_of_name(Self::Header); }
            return Self::Header;
        }
        if str_equals(role, ACCESSIBLE_FOOTER) {
            proof { lemma_role_named_of_name(Self::Footer); }
            return Self::Footer;
        }
        if str_equals(role, ACCESSIBLE_PARAGRAPH) {
            proof { lemma_role_named_of_name(Self::Paragraph); }
            return Self::Paragraph;
        }
        if str_equals(role, ACCESSIBLE_RULER) {
            proof { lemma_role_named_of_name(Self::Ruler); }
            return Self::Ruler;
        }
        if str_equals(role, ACCESSIBLE_EDITBAR) {
            proof { lemma_role_named_of_name(Self::EditBar); }
            return Self::EditBar;
        }
        if str_equals(role, PROGRESS_MONITOR) {
            proof { lemma_role_named_of_name(Self::ProgressMonitor); }
            return Self::ProgressMonitor;
        }
        assert(!is_role_name(role@));
        Self::Unknown
    }
}

} // verus!
