use java_access_bridge::jab::context::{AccessibleContext, AccessibleRelation};
use java_access_bridge::jab::packages::{
    ActionsInfo, ContextInfo, IconInfo, IconsInfo, KeyBindingInfo, KeyBindingsInfo, RelationInfo,
    RelationSetInfo, TextInfo, TextItemsInfo, TextRectInfo, TextSelectionInfo, VisibleChildrenInfo,
    MAX_ACTIONS_TO_DO, MAX_STRING_SIZE, SHORT_STRING_SIZE,
};
use java_access_bridge::jab::role::AccessibleRole;

fn buffer(text: &str, size: usize) -> Vec<u16> {
    let mut b: Vec<u16> = text.encode_utf16().collect();
    b.resize(size, 0);
    b
}

fn info(name: &str, role: &str, text: bool, selection: bool) -> ContextInfo {
    ContextInfo {
        name: buffer(name, MAX_STRING_SIZE),
        description: buffer("a description", MAX_STRING_SIZE),
        role: buffer(role, SHORT_STRING_SIZE),
        role_en_us: buffer(role, SHORT_STRING_SIZE),
        states: buffer("enabled,focusable", SHORT_STRING_SIZE),
        states_en_us: buffer("enabled,focusable", SHORT_STRING_SIZE),
        index_in_parent: 3,
        children_count: 7,
        x: 10,
        y: 20,
        width: 300,
        height: 40,
        accessible_component: 1,
        accessible_action: 1,
        accessible_selection: if selection { 1 } else { 0 },
        accessible_text: if text { 1 } else { 0 },
        accessible_interfaces: 0,
    }
}

fn text_field() -> AccessibleContext {
    AccessibleContext::new(1, 0x1_0000_0005, Some(info("Login", "text", true, false)))
}

fn bare() -> AccessibleContext {
    AccessibleContext::new(1, 42, None)
}

#[test]
fn reported_fields() {
    let ctx = text_field();
    assert_eq!(ctx.get_name().as_deref(), Some("Login"));
    assert_eq!(ctx.get_description().as_deref(), Some("a description"));
    assert_eq!(ctx.get_role(), AccessibleRole::Text);
    assert_eq!(ctx.get_states().as_deref(), Some("enabled,focusable"));
    assert_eq!(ctx.get_states_en_us().as_deref(), Some("enabled,focusable"));
    assert_eq!(ctx.get_index_in_parent(), 3);
    assert_eq!(ctx.get_child_count(), 7);
    assert_eq!(ctx.get_bound_rectangle(), Some((10, 20, 300, 40)));
    assert!(!ctx.is_supported_selection());
    assert!(ctx.supports_text());
}

#[test]
fn unique_id_is_low_half_of_handle() {
    assert_eq!(text_field().get_unique_id(), 5);
    assert_eq!(AccessibleContext::new(0, -1, None).get_unique_id(), -1);
}

#[test]
fn without_information() {
    let ctx = bare();
    assert_eq!(ctx.get_name(), None);
    assert_eq!(ctx.get_description(), None);
    assert_eq!(ctx.get_role(), AccessibleRole::Unknown);
    assert_eq!(ctx.get_states(), None);
    assert_eq!(ctx.get_states_en_us(), None);
    assert_eq!(ctx.get_index_in_parent(), -1);
    assert_eq!(ctx.get_child_count(), -1);
    assert_eq!(ctx.get_bound_rectangle(), None);
    assert!(!ctx.is_supported_selection());
    assert!(!ctx.supports_text());
}

#[test]
fn role_not_defined_by_bridge_is_unknown() {
    let ctx = AccessibleContext::new(1, 1, Some(info("x", "gizmo", false, true)));
    assert_eq!(ctx.get_role(), AccessibleRole::Unknown);
    assert!(ctx.is_supported_selection());
    let ctx = AccessibleContext::new(1, 1, Some(info("x", "push button", false, true)));
    assert_eq!(ctx.get_role(), AccessibleRole::PushButton);
}

#[test]
fn describe_lists_the_fields() {
    assert_eq!(
        text_field().describe(),
        "AccessibleContext(name:Login,description:a description,role:text,states:enabled,focusable,)"
    );
    assert_eq!(bare().describe(), "AccessibleContext(role:unknown,)");
}

#[test]
fn actions_from_answer() {
    let ctx = bare();
    let mut names = vec![buffer("click", SHORT_STRING_SIZE), buffer("toggle", SHORT_STRING_SIZE)];
    names.resize(256, vec![0; SHORT_STRING_SIZE]);
    let answer = ActionsInfo { actions_count: 2, action_names: names.clone() };
    assert_eq!(ctx.get_actions(Some(answer)), vec!["click".to_string(), "toggle".to_string()]);
    let none = ActionsInfo { actions_count: -3, action_names: names };
    assert!(ctx.get_actions(Some(none)).is_empty());
    assert!(ctx.get_actions(None).is_empty());
}

#[test]
fn do_actions_request_pads_names() {
    let names = vec!["click".to_string(), "toggle".to_string()];
    let request = AccessibleContext::do_actions_request(&names);
    assert_eq!(request.actions_count, 2);
    assert_eq!(request.actions.len(), 2);
    assert_eq!(request.actions[0], buffer("click", SHORT_STRING_SIZE));
    assert_eq!(request.actions[1], buffer("toggle", SHORT_STRING_SIZE));
    let empty = AccessibleContext::do_actions_request(&[]);
    assert_eq!(empty.actions_count, 0);
    assert!(empty.actions.is_empty());
}

#[test]
fn do_actions_request_takes_at_most_the_to_do_capacity() {
    let names: Vec<String> = (0..40).map(|i| format!("action{}", i)).collect();
    let request = AccessibleContext::do_actions_request(&names);
    assert_eq!(request.actions_count, MAX_ACTIONS_TO_DO as i32);
    assert_eq!(request.actions.len(), MAX_ACTIONS_TO_DO);
    assert_eq!(request.actions[31], buffer("action31", SHORT_STRING_SIZE));
}

#[test]
fn text_contents_buffer_is_cut_and_padded() {
    let b = AccessibleContext::text_contents_buffer("Привет");
    assert_eq!(b.len(), MAX_STRING_SIZE - 1);
    assert_eq!(b, buffer("Привет", MAX_STRING_SIZE - 1));
    assert_eq!(java_access_bridge::utils::to_string_utf16(&b), "Привет");
    let long: String = "x".repeat(2000);
    let b = AccessibleContext::text_contents_buffer(&long);
    assert_eq!(b.len(), MAX_STRING_SIZE - 1);
    assert!(b.iter().all(|u| *u == 'x' as u16));
}

#[test]
fn relations_from_answer() {
    let ctx = bare();
    let answer = RelationSetInfo {
        relation_count: 2,
        relations: vec![
            RelationInfo { key: buffer("labelFor", SHORT_STRING_SIZE), target_count: 2, targets: vec![11, 12, 13] },
            RelationInfo { key: buffer("memberOf", SHORT_STRING_SIZE), target_count: 0, targets: vec![14] },
            RelationInfo { key: buffer("ignored", SHORT_STRING_SIZE), target_count: 1, targets: vec![15] },
        ],
    };
    let relations: Vec<AccessibleRelation> = ctx.get_relations(Some(answer));
    assert_eq!(relations.len(), 2);
    assert_eq!(relations[0].key, "labelFor");
    assert_eq!(relations[0].targets, vec![11, 12]);
    assert_eq!(relations[1].key, "memberOf");
    assert!(relations[1].targets.is_empty());
    assert!(ctx.get_relations(None).is_empty());
}

#[test]
fn key_bindings_and_icons_from_answer() {
    let ctx = bare();
    let keys = KeyBindingsInfo {
        key_bindings_count: 1,
        key_binding_info: vec![
            KeyBindingInfo { character: 'S' as u16, modifiers: 2 },
            KeyBindingInfo { character: 'Q' as u16, modifiers: 8 },
        ],
    };
    let bindings = ctx.get_key_bindings(Some(keys));
    assert_eq!(bindings.len(), 1);
    assert_eq!(bindings[0].character, 'S' as u16);
    assert_eq!(bindings[0].modifiers, 2);
    assert!(ctx.get_key_bindings(None).is_empty());

    let icons = IconsInfo {
        icons_count: 1,
        icon_info: vec![IconInfo { description: buffer("save", SHORT_STRING_SIZE), height: 16, width: 24 }],
    };
    assert_eq!(ctx.get_icons(Some(icons)), vec![("save".to_string(), 24, 16)]);
    assert!(ctx.get_icons(None).is_empty());
}

#[test]
fn visible_children_from_answer() {
    let ctx = bare();
    let answer = VisibleChildrenInfo { returned_children_count: 2, children: vec![5, 6, 7, 8] };
    assert_eq!(ctx.get_visible_children(Some(answer)), Some(vec![5, 6]));
    assert_eq!(ctx.get_visible_children(None), None);
}

#[test]
fn names_and_values_from_answer() {
    let ctx = bare();
    assert_eq!(ctx.get_virtual_name(Some(buffer("OK button", 64))).as_deref(), Some("OK button"));
    assert_eq!(ctx.get_virtual_name(Some(buffer("", 8))).as_deref(), Some(""));
    assert_eq!(ctx.get_virtual_name(None), None);
    assert_eq!(ctx.get_value(Some(buffer("42.5", 16))).as_deref(), Some("42.5"));
    assert_eq!(ctx.get_value(Some(buffer("", 16))), None);
    assert_eq!(ctx.get_value(None), None);
}

#[test]
fn caret_location_from_answer() {
    let ctx = bare();
    let rect = TextRectInfo { x: 1, y: 2, width: 3, height: 4 };
    assert_eq!(ctx.get_caret_location(Some(rect)), Some((1, 2, 3, 4)));
    assert_eq!(ctx.get_caret_location(None), None);
}

#[test]
fn text_queries_need_text() {
    let text = text_field();
    let plain = AccessibleContext::new(1, 2, Some(info("b", "push button", false, false)));
    let selection = || TextSelectionInfo { selection_start_index: 1, selection_end_index: 3, selected_text: buffer("og", 16) };
    assert_eq!(text.get_text_selection(Some(selection())), Some((1, 3, "og".to_string())));
    assert_eq!(plain.get_text_selection(Some(selection())), None);
    assert_eq!(bare().get_text_selection(Some(selection())), None);
    assert_eq!(text.get_text_selection(None), None);

    let info = || TextInfo { char_count: 5, caret_index: 2, index_at_point: 4 };
    assert_eq!(text.get_text_info(Some(info())), Some((5, 2, 4)));
    assert_eq!(plain.get_text_info(Some(info())), None);

    let items = || TextItemsInfo { letter: 'L' as u16, word: buffer("Login", 32), sentence: buffer("Login here.", 64) };
    assert_eq!(text.get_text_items(Some(items())), Some(('L' as u16, "Login".to_string(), "Login here.".to_string())));
    assert_eq!(plain.get_text_items(Some(items())), None);

    assert_eq!(text.get_text_range(Some(buffer("ogi", 8))).as_deref(), Some("ogi"));
    assert_eq!(plain.get_text_range(Some(buffer("ogi", 8))), None);

    assert_eq!(text.get_text_line_bounds(Some((0, 5))), Some((0, 5)));
    assert_eq!(plain.get_text_line_bounds(Some((0, 5))), None);

    let rect = || TextRectInfo { x: 7, y: 8, width: 9, height: 10 };
    assert_eq!(text.get_text_rect(Some(rect())), Some((7, 8, 9, 10)));
    assert_eq!(plain.get_text_rect(Some(rect())), None);
}

#[test]
fn text_contents_buffer_holds_utf16_units() {
    let b = AccessibleContext::text_contents_buffer("Окно\u{10437}");
    assert_eq!(&b[..7], &[0x41E, 0x43A, 0x43D, 0x43E, 0xD801, 0xDC37, 0]);
    let empty = AccessibleContext::text_contents_buffer("");
    assert!(empty.iter().all(|u| *u == 0));
}

#[test]
fn text_range_length_is_the_distance() {
    assert_eq!(AccessibleContext::text_range_length(2, 7), 5);
    assert_eq!(AccessibleContext::text_range_length(7, 2), 5);
    assert_eq!(AccessibleContext::text_range_length(0, 70000), (70000i32) as i16);
}
