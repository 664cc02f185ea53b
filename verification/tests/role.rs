use java_access_bridge::jab::role::AccessibleRole;

fn all_roles() -> Vec<AccessibleRole> {
    vec![
        AccessibleRole::Alert,
        AccessibleRole::ColumnHeader,
        AccessibleRole::Canvas,
        AccessibleRole::ComboBox,
        AccessibleRole::DesktopIcon,
        AccessibleRole::InternalFrame,
        AccessibleRole::DesktopPane,
        AccessibleRole::OptionPane,
        AccessibleRole::Window,
        AccessibleRole::Frame,
        AccessibleRole::Dialog,
        AccessibleRole::ColorChooser,
        AccessibleRole::DirectoryPane,
        AccessibleRole::FileChooser,
        AccessibleRole::Filler,
        AccessibleRole::Hyperlink,
        AccessibleRole::Icon,
        AccessibleRole::Label,
        AccessibleRole::RootPane,
        AccessibleRole::GlassPane,
        AccessibleRole::LayeredPane,
        AccessibleRole::List,
        AccessibleRole::ListItem,
        AccessibleRole::MenuBar,
        AccessibleRole::PopupMenu,
        AccessibleRole::Menu,
        AccessibleRole::MenuItem,
        AccessibleRole::SEPARATOR,
        AccessibleRole::PageTabList,
        AccessibleRole::PageTab,
        AccessibleRole::Panel,
        AccessibleRole::ProgressBar,
        AccessibleRole::PasswordText,
        AccessibleRole::PushButton,
        AccessibleRole::ToggleButton,
        AccessibleRole::CheckBox,
        AccessibleRole::RadioButton,
        AccessibleRole::RowHeader,
        AccessibleRole::ScrollPane,
        AccessibleRole::ScrollBar,
        AccessibleRole::Viewport,
        AccessibleRole::Slider,
        AccessibleRole::SplitPane,
        AccessibleRole::Table,
        AccessibleRole::Text,
        AccessibleRole::Tree,
        AccessibleRole::ToolBar,
        AccessibleRole::ToolTip,
        AccessibleRole::AwtComponent,
        AccessibleRole::SwingComponent,
        AccessibleRole::Unknown,
        AccessibleRole::StatusBar,
        AccessibleRole::DateEditor,
        AccessibleRole::SpinBox,
        AccessibleRole::FontChooser,
        AccessibleRole::GroupBox,
        AccessibleRole::Header,
        AccessibleRole::Footer,
        AccessibleRole::Paragraph,
        AccessibleRole::Ruler,
        AccessibleRole::EditBar,
        AccessibleRole::ProgressMonitor,
    ]
}

#[test]
fn role_names_are_the_bridge_names() {
    assert_eq!(AccessibleRole::Alert.to_str(), "alert");
    assert_eq!(AccessibleRole::ColumnHeader.to_str(), "column header");
    assert_eq!(AccessibleRole::Canvas.to_str(), "canvas");
    assert_eq!(AccessibleRole::ComboBox.to_str(), "combo box");
    assert_eq!(AccessibleRole::DesktopIcon.to_str(), "desktop icon");
    assert_eq!(AccessibleRole::InternalFrame.to_str(), "internal frame");
    assert_eq!(AccessibleRole::DesktopPane.to_str(), "desktop pane");
    assert_eq!(AccessibleRole::OptionPane.to_str(), "option pane");
    assert_eq!(AccessibleRole::Window.to_str(), "window");
    assert_eq!(AccessibleRole::Frame.to_str(), "frame");
    assert_eq!(AccessibleRole::Dialog.to_str(), "dialog");
    assert_eq!(AccessibleRole::ColorChooser.to_str(), "color chooser");
    assert_eq!(AccessibleRole::DirectoryPane.to_str(), "directory pane");
    assert_eq!(AccessibleRole::FileChooser.to_str(), "file chooser");
    assert_eq!(AccessibleRole::Filler.to_str(), "filler");
    assert_eq!(AccessibleRole::Hyperlink.to_str(), "hyperlink");
    assert_eq!(AccessibleRole::Icon.to_str(), "icon");
    assert_eq!(AccessibleRole::Label.to_str(), "label");
    assert_eq!(AccessibleRole::RootPane.to_str(), "root pane");
    assert_eq!(AccessibleRole::GlassPane.to_str(), "glass pane");
    assert_eq!(AccessibleRole::LayeredPane.to_str(), "layered pane");
    assert_eq!(AccessibleRole::List.to_str(), "list");
    assert_eq!(AccessibleRole::ListItem.to_str(), "list item");
    assert_eq!(AccessibleRole::MenuBar.to_str(), "menu bar");
    assert_eq!(AccessibleRole::PopupMenu.to_str(), "popup menu");
    assert_eq!(AccessibleRole::Menu.to_str(), "menu");
    assert_eq!(AccessibleRole::MenuItem.to_str(), "menu item");
    assert_eq!(AccessibleRole::SEPARATOR.to_str(), "separator");
    assert_eq!(AccessibleRole::PageTabList.to_str(), "page tab list");
    assert_eq!(AccessibleRole::PageTab.to_str(), "page tab");
    assert_eq!(AccessibleRole::Panel.to_str(), "panel");
    assert_eq!(AccessibleRole::ProgressBar.to_str(), "progress bar");
    assert_eq!(AccessibleRole::PasswordText.to_str(), "password text");
    assert_eq!(AccessibleRole::PushButton.to_str(), "push button");
    assert_eq!(AccessibleRole::ToggleButton.to_str(), "toggle button");
    assert_eq!(AccessibleRole::CheckBox.to_str(), "check box");
    assert_eq!(AccessibleRole::RadioButton.to_str(), "radio button");
    assert_eq!(AccessibleRole::RowHeader.to_str(), "row header");
    assert_eq!(AccessibleRole::ScrollPane.to_str(), "scroll pane");
    assert_eq!(AccessibleRole::ScrollBar.to_str(), "scroll bar");
    assert_eq!(AccessibleRole::Viewport.to_str(), "viewport");
    assert_eq!(AccessibleRole::Slider.to_str(), "slider");
    assert_eq!(AccessibleRole::SplitPane.to_str(), "split pane");
    assert_eq!(AccessibleRole::Table.to_str(), "table");
    assert_eq!(AccessibleRole::Text.to_str(), "text");
    assert_eq!(AccessibleRole::Tree.to_str(), "tree");
    assert_eq!(AccessibleRole::ToolBar.to_str(), "tool bar");
    assert_eq!(AccessibleRole::ToolTip.to_str(), "tool tip");
    assert_eq!(AccessibleRole::AwtComponent.to_str(), "awt component");
    assert_eq!(AccessibleRole::SwingComponent.to_str(), "swing component");
    assert_eq!(AccessibleRole::Unknown.to_str(), "unknown");
    assert_eq!(AccessibleRole::StatusBar.to_str(), "status bar");
    assert_eq!(AccessibleRole::DateEditor.to_str(), "date editor");
    assert_eq!(AccessibleRole::SpinBox.to_str(), "spin box");
    assert_eq!(AccessibleRole::FontChooser.to_str(), "font chooser");
    assert_eq!(AccessibleRole::GroupBox.to_str(), "group box");
    assert_eq!(AccessibleRole::Header.to_str(), "header");
    assert_eq!(AccessibleRole::Footer.to_str(), "footer");
    assert_eq!(AccessibleRole::Paragraph.to_str(), "paragraph");
    assert_eq!(AccessibleRole::Ruler.to_str(), "ruler");
    assert_eq!(AccessibleRole::EditBar.to_str(), "editbar");
    assert_eq!(AccessibleRole::ProgressMonitor.to_str(), "progress monitor");
}

#[test]
fn from_str_reads_every_bridge_name() {
    assert_eq!(AccessibleRole::from_str("alert"), AccessibleRole::Alert);
    assert_eq!(AccessibleRole::from_str("column header"), AccessibleRole::ColumnHeader);
    assert_eq!(AccessibleRole::from_str("canvas"), AccessibleRole::Canvas);
    assert_eq!(AccessibleRole::from_str("combo box"), AccessibleRole::ComboBox);
    assert_eq!(AccessibleRole::from_str("desktop icon"), AccessibleRole::DesktopIcon);
    assert_eq!(AccessibleRole::from_str("internal frame"), AccessibleRole::InternalFrame);
    assert_eq!(AccessibleRole::from_str("desktop pane"), AccessibleRole::DesktopPane);
    assert_eq!(AccessibleRole::from_str("option pane"), AccessibleRole::OptionPane);
    assert_eq!(AccessibleRole::from_str("window"), AccessibleRole::Window);
    assert_eq!(AccessibleRole::from_str("frame"), AccessibleRole::Frame);
    assert_eq!(AccessibleRole::from_str("dialog"), AccessibleRole::Dialog);
    assert_eq!(AccessibleRole::from_str("color chooser"), AccessibleRole::ColorChooser);
    assert_eq!(AccessibleRole::from_str("directory pane"), AccessibleRole::DirectoryPane);
    assert_eq!(AccessibleRole::from_str("file chooser"), AccessibleRole::FileChooser);
    assert_eq!(AccessibleRole::from_str("filler"), AccessibleRole::Filler);
    assert_eq!(AccessibleRole::from_str("hyperlink"), AccessibleRole::Hyperlink);
    assert_eq!(AccessibleRole::from_str("icon"), AccessibleRole::Icon);
    assert_eq!(AccessibleRole::from_str("label"), AccessibleRole::Label);
    assert_eq!(AccessibleRole::from_str("root pane"), AccessibleRole::RootPane);
    assert_eq!(AccessibleRole::from_str("glass pane"), AccessibleRole::GlassPane);
    assert_eq!(AccessibleRole::from_str("layered pane"), AccessibleRole::LayeredPane);
    assert_eq!(AccessibleRole::from_str("list"), AccessibleRole::List);
    assert_eq!(AccessibleRole::from_str("list item"), AccessibleRole::ListItem);
    assert_eq!(AccessibleRole::from_str("menu bar"), AccessibleRole::MenuBar);
    assert_eq!(AccessibleRole::from_str("popup menu"), AccessibleRole::PopupMenu);
    assert_eq!(AccessibleRole::from_str("menu"), AccessibleRole::Menu);
    assert_eq!(AccessibleRole::from_str("menu item"), AccessibleRole::MenuItem);
    assert_eq!(AccessibleRole::from_str("separator"), AccessibleRole::SEPARATOR);
    assert_eq!(AccessibleRole::from_str("page tab list"), AccessibleRole::PageTabList);
    assert_eq!(AccessibleRole::from_str("page tab"), AccessibleRole::PageTab);
    assert_eq!(AccessibleRole::from_str("panel"), AccessibleRole::Panel);
    assert_eq!(AccessibleRole::from_str("progress bar"), AccessibleRole::ProgressBar);
    assert_eq!(AccessibleRole::from_str("password text"), AccessibleRole::PasswordText);
    assert_eq!(AccessibleRole::from_str("push button"), AccessibleRole::PushButton);
    assert_eq!(AccessibleRole::from_str("toggle button"), AccessibleRole::ToggleButton);
    assert_eq!(AccessibleRole::from_str("check box"), AccessibleRole::CheckBox);
    assert_eq!(AccessibleRole::from_str("radio button"), AccessibleRole::RadioButton);
    assert_eq!(AccessibleRole::from_str("row header"), AccessibleRole::RowHeader);
    assert_eq!(AccessibleRole::from_str("scroll pane"), AccessibleRole::ScrollPane);
    assert_eq!(AccessibleRole::from_str("scroll bar"), AccessibleRole::ScrollBar);
    assert_eq!(AccessibleRole::from_str("viewport"), AccessibleRole::Viewport);
    assert_eq!(AccessibleRole::from_str("slider"), AccessibleRole::Slider);
    assert_eq!(AccessibleRole::from_str("split pane"), AccessibleRole::SplitPane);
    assert_eq!(AccessibleRole::from_str("table"), AccessibleRole::Table);
    assert_eq!(AccessibleRole::from_str("text"), AccessibleRole::Text);
    assert_eq!(AccessibleRole::from_str("tree"), AccessibleRole::Tree);
    assert_eq!(AccessibleRole::from_str("tool bar"), AccessibleRole::ToolBar);
    assert_eq!(AccessibleRole::from_str("tool tip"), AccessibleRole::ToolTip);
    assert_eq!(AccessibleRole::from_str("awt component"), AccessibleRole::AwtComponent);
    assert_eq!(AccessibleRole::from_str("swing component"), AccessibleRole::SwingComponent);
    assert_eq!(AccessibleRole::from_str("unknown"), AccessibleRole::Unknown);
    assert_eq!(AccessibleRole::from_str("status bar"), AccessibleRole::StatusBar);
    assert_eq!(AccessibleRole::from_str("date editor"), AccessibleRole::DateEditor);
    assert_eq!(AccessibleRole::from_str("spin box"), AccessibleRole::SpinBox);
    assert_eq!(AccessibleRole::from_str("font chooser"), AccessibleRole::FontChooser);
    assert_eq!(AccessibleRole::from_str("group box"), AccessibleRole::GroupBox);
    assert_eq!(AccessibleRole::from_str("header"), AccessibleRole::Header);
    assert_eq!(AccessibleRole::from_str("footer"), AccessibleRole::Footer);
    assert_eq!(AccessibleRole::from_str("paragraph"), AccessibleRole::Paragraph);
    assert_eq!(AccessibleRole::from_str("ruler"), AccessibleRole::Ruler);
    assert_eq!(AccessibleRole::from_str("editbar"), AccessibleRole::EditBar);
    assert_eq!(AccessibleRole::from_str("progress monitor"), AccessibleRole::ProgressMonitor);
}

#[test]
fn role_round_trip() {
    for role in all_roles() {
        assert_eq!(AccessibleRole::from_str(role.to_str()), role);
    }
}

#[test]
fn role_names_are_distinct() {
    let roles = all_roles();
    for (i, a) in roles.iter().enumerate() {
        for b in roles.iter().skip(i + 1) {
            assert_ne!(a.to_str(), b.to_str());
        }
    }
}

#[test]
fn unknown_names_read_as_unknown() {
    assert_eq!(AccessibleRole::from_str(""), AccessibleRole::Unknown);
    assert_eq!(AccessibleRole::from_str("Push Button"), AccessibleRole::Unknown);
    assert_eq!(AccessibleRole::from_str("push button "), AccessibleRole::Unknown);
    assert_eq!(AccessibleRole::from_str("push"), AccessibleRole::Unknown);
    assert_eq!(AccessibleRole::from_str("кнопка"), AccessibleRole::Unknown);
    assert_eq!(AccessibleRole::from_str("unknown"), AccessibleRole::Unknown);
}
