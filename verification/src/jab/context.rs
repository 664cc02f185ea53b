//! An accessible object: its identity in the Java VM and what the bridge reported of it.
use vstd::prelude::*;

use crate::jab::packages::{
    ActionsInfo, ActionsToDo, ContextInfo, IconsInfo, JObject64, KeyBindingsInfo, RelationSetInfo,
    TextInfo, TextItemsInfo, TextRectInfo, TextSelectionInfo, VisibleChildrenInfo, MAX_ACTIONS_TO_DO,
    MAX_ACTION_INFO, MAX_STRING_SIZE, SHORT_STRING_SIZE,
};
use crate::jab::role::{lemma_role_named_of_name, role_name, role_named, AccessibleRole};
use crate::utils::{
    encode_utf16, lemma_padded_read_back, padded, to_string_utf16, utf16_encode, wide_text,
};

verus! {

/// An accessible object of a Java VM, with the information the bridge gave for it
/// when it was obtained (`None` when the bridge gave none).
pub struct AccessibleContext {
    pub vm_id: i32,
    pub object: JObject64,
    pub info: Option<ContextInfo>,
}

/// The number of table entries a count of the bridge designates: none when it is negative.
pub open spec fn count_of(count: i32) -> int {
    if count < 0 {
        0
    } else {
        count as int
    }
}

/// A relation of an object: its key and the handles of the objects it relates to.
pub struct AccessibleRelation {
    pub key: String,
    pub targets: Vec<JObject64>,
}

/// A key binding of an object: the key and its modifiers.
pub struct AccessibleKeyBinding {
    pub character: u16,
    pub modifiers: i32,
}

/// A buffer of `size` units holding the UTF-16 units of `text` from its start,
/// cut at `size` units, the rest zero.
fn padded_units(text: &str, size: usize) -> (buffer: Vec<u16>)
    ensures
        buffer@ == padded(utf16_encode(text@), size as int),
{
    let units = encode_utf16(text);
    let mut buffer: Vec<u16> = Vec::new();
    let mut k: usize = 0;
    while k < size
        invariant
            units@ == utf16_encode(text@),
            k <= size,
            buffer@.len() == k,
            forall|j: int| 0 <= j < k ==> buffer@[j] == (if j < units@.len() { units@[j] } else { 0u16 }),
        decreases size - k,
    {
        if k < units.len() {
            buffer.push(units[k]);
        } else {
            buffer.push(0);
        }
        k = k + 1;
    }
    assert(buffer@ =~= padded(utf16_encode(text@), size as int));
    buffer
}

impl AccessibleContext {
    /// An object of VM `vm_id` with handle `object` and the information reported for it.
    pub fn new(vm_id: i32, object: JObject64, info: Option<ContextInfo>) -> (ctx: Self)
        ensures
            ctx.vm_id == vm_id,
            ctx.object == object,
            ctx.info == info,
    {
        AccessibleContext { vm_id, object, info }
    }

    /// The object's identifier: the low 32 bits of its handle.
    pub fn get_unique_id(&self) -> (id: i32)
        ensures
            id == self.object as i32,
    {
        self.object as i32
    }

    /// The object's name.
    pub fn get_name(&self) -> (name: Option<String>)
        ensures
            name matches Some(n) ==> self.info matches Some(i) && n@ == wide_text(i.name@),
            name is None <==> self.info is None,
    {
        match &self.info {
            Some(info) => Some(to_string_utf16(info.name.as_slice())),
            None => None,
        }
    }

    /// The object's description.
    pub fn get_description(&self) -> (description: Option<String>)
        ensures
            description matches Some(d) ==> self.info matches Some(i) && d@ == wide_text(i.description@),
            description is None <==> self.info is None,
    {
        match &self.info {
            Some(info) => Some(to_string_utf16(info.description.as_slice())),
            None => None,
        }
    }

    /// The object's role; `Unknown` when there is no information or the role name is not one
    /// the bridge defines.
    pub fn get_role(&self) -> (role: AccessibleRole)
        ensures
            role == match self.info {
                Some(i) => role_named(wide_text(i.role@)),
                None => AccessibleRole::Unknown,
            },
    {
        match &self.info {
            Some(info) => {
                let name = to_string_utf16(info.role.as_slice());
                AccessibleRole::from_str(name.as_str())
            },
            None => AccessibleRole::Unknown,
        }
    }

    /// The object's states, in the locale of the Java VM.
    pub fn get_states(&self) -> (states: Option<String>)
        ensures
            states matches Some(s) ==> self.info matches Some(i) && s@ == wide_text(i.states@),
            states is None <==> self.info is None,
    {
        match &self.info {
            Some(info) => Some(to_string_utf16(info.states.as_slice())),
            None => None,
        }
    }

    /// The object's states, in English.
    pub fn get_states_en_us(&self) -> (states: Option<String>)
        ensures
            states matches Some(s) ==> self.info matches Some(i) && s@ == wide_text(i.states_en_us@),
            states is None <==> self.info is None,
    {
        match &self.info {
            Some(info) => Some(to_string_utf16(info.states_en_us.as_slice())),
            None => None,
        }
    }

    /// The object's index among its parent's children; -1 without information.
    pub fn get_index_in_parent(&self) -> (index: i32)
        ensures
            index == match self.info {
                Some(i) => i.index_in_parent,
                None => -1i32,
            },
    {
        match &self.info {
            Some(info) => info.index_in_parent,
            None => -1,
        }
    }

    /// The number of the object's children; -1 without information.
    pub fn get_child_count(&self) -> (count: i32)
        ensures
            count == match self.info {
                Some(i) => i.children_count,
                None => -1i32,
            },
    {
        match &self.info {
            Some(info) => info.children_count,
            None => -1,
        }
    }

    /// The object's bounds: left, top, width, height.
    pub fn get_bound_rectangle(&self) -> (bounds: Option<(i32, i32, i32, i32)>)
        ensures
            bounds == match self.info {
                Some(i) => Some((i.x, i.y, i.width, i.height)),
                None => None::<(i32, i32, i32, i32)>,
            },
    {
        match &self.info {
            Some(info) => Some((info.x, info.y, info.width, info.height)),
            None => None,
        }
    }

    /// Whether the object supports selecting its children.
    pub fn is_supported_selection(&self) -> (supported: bool)
        ensures
            supported == (self.info matches Some(i) && i.accessible_selection != 0),
    {
        match &self.info {
            Some(info) => info.accessible_selection != 0,
            None => false,
        }
    }

    /// The object holds text: the bridge reported it as accessible text.
    pub open spec fn holds_text(&self) -> bool {
        self.info matches Some(i) && i.accessible_text != 0
    }

    /// Whether the object holds text; the text queries answer only for such objects.
    pub fn supports_text(&self) -> (supported: bool)
        ensures
            supported == self.holds_text(),
            supported == (self.info matches Some(i) && i.accessible_text != 0),
    {
        match &self.info {
            Some(info) => info.accessible_text != 0,
            None => false,
        }
    }

    /// The names of the actions the object can perform, from the bridge's answer
    /// (none when the bridge gave no answer).
    pub fn get_actions(&self, answer: Option<ActionsInfo>) -> (names: Vec<String>)
        requires
            answer matches Some(a) ==> a.actions_count <= a.action_names@.len(),
        ensures
            answer is None ==> names@.len() == 0,
            answer matches Some(a) ==> {
                &&& names@.len() == count_of(a.actions_count)
                &&& forall|k: int| 0 <= k < names@.len() ==> names@[k]@ == wide_text(a.action_names@[k]@)
            },
    {
        let mut names: Vec<String> = Vec::new();
        if let Some(a) = answer {
            let mut k: i32 = 0;
            while k < a.actions_count
                invariant
                    a.actions_count <= a.action_names@.len(),
                    0 <= k,
                    k <= count_of(a.actions_count),
                    names@.len() == k,
                    forall|j: int| 0 <= j < k ==> names@[j]@ == wide_text(a.action_names@[j]@),
                decreases a.actions_count - k,
            {
                names.push(to_string_utf16(a.action_names[k as usize].as_slice()));
                k = k + 1;
            }
        }
        names
    }

    /// The to-do record for performing `actions_to_do`: the first
    /// `min(len, MAX_ACTION_INFO)` names enter the action table as name buffers of
    /// `SHORT_STRING_SIZE` units, and the to-do record takes up to `MAX_ACTIONS_TO_DO` of them.
    /// Each name that enters the table must fit its buffer.
    pub fn do_actions_request(actions_to_do: &[String]) -> (request: ActionsToDo)
        requires
            forall|k: int| 0 <= k < actions_to_do@.len() && k < MAX_ACTION_INFO ==>
                utf16_encode(#[trigger] actions_to_do@[k]@).len() <= SHORT_STRING_SIZE,
        ensures
            ({
                let table = if (actions_to_do@.len() as i32) < (MAX_ACTION_INFO as i32) {
                    actions_to_do@.len() as i32
                } else {
                    MAX_ACTION_INFO as i32
                };
                request.actions_count == if table < (MAX_ACTIONS_TO_DO as i32) { table } else { MAX_ACTIONS_TO_DO as i32 }
            }),
            request.actions@.len() == count_of(request.actions_count),
            forall|k: int| 0 <= k < request.actions@.len() ==>
                #[trigger] request.actions@[k]@ == padded(utf16_encode(actions_to_do@[k]@), SHORT_STRING_SIZE as int),
    {
        let len = actions_to_do.len() as i32;
        let table = if len < MAX_ACTION_INFO as i32 { len } else { MAX_ACTION_INFO as i32 };
        let count = if table < MAX_ACTIONS_TO_DO as i32 { table } else { MAX_ACTIONS_TO_DO as i32 };
        let mut actions: Vec<Vec<u16>> = Vec::new();
        let mut k: i32 = 0;
        while k < count
            invariant
                count <= MAX_ACTIONS_TO_DO,
                count <= actions_to_do@.len() || count <= 0,
                forall|j: int| 0 <= j < actions_to_do@.len() && j < MAX_ACTION_INFO ==>
                    utf16_encode(#[trigger] actions_to_do@[j]@).len() <= SHORT_STRING_SIZE,
                0 <= k,
                k <= count_of(count),
                actions@.len() == k,
                forall|j: int| 0 <= j < k ==>
                    #[trigger] actions@[j]@ == padded(utf16_encode(actions_to_do@[j]@), SHORT_STRING_SIZE as int),
            decreases count - k,
        {
            let name = padded_units(actions_to_do[k as usize].as_str(), SHORT_STRING_SIZE);
            actions.push(name);
            k = k + 1;
        }
        ActionsToDo { actions_count: count, actions }
    }

    /// The buffer that sets the object's editable text: `MAX_STRING_SIZE - 1` units holding the
    /// text's UTF-16 units from the start, cut at that size, the rest zero.
    pub fn text_contents_buffer(text: &str) -> (buffer: Vec<u16>)
        ensures
            buffer@ == padded(utf16_encode(text@), MAX_STRING_SIZE - 1),
    {
        padded_units(text, MAX_STRING_SIZE - 1)
    }

    /// The object's relations, from the bridge's answer: for each of the first `relation_count`
    /// relations its key and the first `target_count` of its targets.
    pub fn get_relations(&self, answer: Option<RelationSetInfo>) -> (relations: Vec<AccessibleRelation>)
        requires
            answer matches Some(a) ==> {
                &&& a.relation_count <= a.relations@.len()
                &&& forall|k: int| 0 <= k < count_of(a.relation_count) ==>
                    (#[trigger] a.relations@[k]).target_count <= a.relations@[k].targets@.len()
            },
        ensures
            answer is None ==> relations@.len() == 0,
            answer matches Some(a) ==> {
                &&& relations@.len() == count_of(a.relation_count)
                &&& forall|k: int| 0 <= k < relations@.len() ==> {
                    &&& (#[trigger] relations@[k]).key@ == wide_text(a.relations@[k].key@)
                    &&& relations@[k].targets@ == a.relations@[k].targets@.take(count_of(a.relations@[k].target_count))
                }
            },
    {
        let mut relations: Vec<AccessibleRelation> = Vec::new();
        if let Some(a) = answer {
            let mut k: i32 = 0;
            while k < a.relation_count
                invariant
                    a.relation_count <= a.relations@.len(),
                    forall|j: int| 0 <= j < count_of(a.relation_count) ==>
                        (#[trigger] a.relations@[j]).target_count <= a.relations@[j].targets@.len(),
                    0 <= k,
                    k <= count_of(a.relation_count),
                    relations@.len() == k,
                    forall|j: int| 0 <= j < k ==> {
                        &&& (#[trigger] relations@[j]).key@ == wide_text(a.relations@[j].key@)
                        &&& relations@[j].targets@ == a.relations@[j].targets@.take(count_of(a.relations@[j].target_count))
                    },
                decreases a.relation_count - k,
            {
                let item = &a.relations[k as usize];
                let mut targets: Vec<JObject64> = Vec::new();
                let mut t: i32 = 0;
                while t < item.target_count
                    invariant
                        item.target_count <= item.targets@.len(),
                        0 <= t,
                        t <= count_of(item.target_count),
                        targets@ == item.targets@.take(t as int),
                    decreases item.target_count - t,
                {
                    targets.push(item.targets[t as usize]);
                    t = t + 1;
                    assert(targets@ =~= item.targets@.take(t as int));
                }
                relations.push(AccessibleRelation { key: to_string_utf16(item.key.as_slice()), targets });
                k = k + 1;
            }
        }
        relations
    }

    /// The object's key bindings, from the bridge's answer.
    pub fn get_key_bindings(&self, answer: Option<KeyBindingsInfo>) -> (keys: Vec<AccessibleKeyBinding>)
        requires
            answer matches Some(a) ==> a.key_bindings_count <= a.key_binding_info@.len(),
        ensures
            answer is None ==> keys@.len() == 0,
            answer matches Some(a) ==> {
                &&& keys@.len() == count_of(a.key_bindings_count)
                &&& forall|k: int| 0 <= k < keys@.len() ==> {
                    &&& (#[trigger] keys@[k]).character == a.key_binding_info@[k].character
                    &&& keys@[k].modifiers == a.key_binding_info@[k].modifiers
                }
            },
    {
        let mut keys: Vec<AccessibleKeyBinding> = Vec::new();
        if let Some(a) = answer {
            let mut k: i32 = 0;
            while k < a.key_bindings_count
                invariant
                    a.key_bindings_count <= a.key_binding_info@.len(),
                    0 <= k,
                    k <= count_of(a.key_bindings_count),
                    keys@.len() == k,
                    forall|j: int| 0 <= j < k ==> {
                        &&& (#[trigger] keys@[j]).character == a.key_binding_info@[j].character
                        &&& keys@[j].modifiers == a.key_binding_info@[j].modifiers
                    },
                decreases a.key_bindings_count - k,
            {
                let item = &a.key_binding_info[k as usize];
                keys.push(AccessibleKeyBinding { character: item.character, modifiers: item.modifiers });
                k = k + 1;
            }
        }
        keys
    }

    /// The object's icons, from the bridge's answer: description, width, height.
    pub fn get_icons(&self, answer: Option<IconsInfo>) -> (icons: Vec<(String, i32, i32)>)
        requires
            answer matches Some(a) ==> a.icons_count <= a.icon_info@.len(),
        ensures
            answer is None ==> icons@.len() == 0,
            answer matches Some(a) ==> {
                &&& icons@.len() == count_of(a.icons_count)
                &&& forall|k: int| 0 <= k < icons@.len() ==> {
                    &&& (#[trigger] icons@[k]).0@ == wide_text(a.icon_info@[k].description@)
                    &&& icons@[k].1 == a.icon_info@[k].width
                    &&& icons@[k].2 == a.icon_info@[k].height
                }
            },
    {
        let mut icons: Vec<(String, i32, i32)> = Vec::new();
        if let Some(a) = answer {
            let mut k: i32 = 0;
            while k < a.icons_count
                invariant
                    a.icons_count <= a.icon_info@.len(),
                    0 <= k,
                    k <= count_of(a.icons_count),
                    icons@.len() == k,
                    forall|j: int| 0 <= j < k ==> {
                        &&& (#[trigger] icons@[j]).0@ == wide_text(a.icon_info@[j].description@)
                        &&& icons@[j].1 == a.icon_info@[j].width
                        &&& icons@[j].2 == a.icon_info@[j].height
                    },
                decreases a.icons_count - k,
            {
                let item = &a.icon_info[k as usize];
                icons.push((to_string_utf16(item.description.as_slice()), item.width, item.height));
                k = k + 1;
            }
        }
        icons
    }

    /// The handles of the object's visible children, from the bridge's answer.
    pub fn get_visible_children(&self, answer: Option<VisibleChildrenInfo>) -> (children: Option<Vec<JObject64>>)
        requires
            answer matches Some(a) ==> a.returned_children_count <= a.children@.len(),
        ensures
            children is None <==> answer is None,
            answer matches Some(a) ==> children matches Some(c)
                && c@ == a.children@.take(count_of(a.returned_children_count)),
    {
        match answer {
            None => None,
            Some(a) => {
                let mut children: Vec<JObject64> = Vec::new();
                let mut k: i32 = 0;
                while k < a.returned_children_count
                    invariant
                        a.returned_children_count <= a.children@.len(),
                        0 <= k,
                        k <= count_of(a.returned_children_count),
                        children@ == a.children@.take(k as int),
                    decreases a.returned_children_count - k,
                {
                    children.push(a.children[k as usize]);
                    k = k + 1;
                    assert(children@ =~= a.children@.take(k as int));
                }
                Some(children)
            },
        }
    }

    /// The object's name after the JAWS naming policy, from the bridge's answer.
    pub fn get_virtual_name(&self, answer: Option<Vec<u16>>) -> (name: Option<String>)
        ensures
            name is None <==> answer is None,
            answer matches Some(u) ==> name matches Some(n) && n@ == wide_text(u@),
    {
        match answer {
            Some(units) => Some(to_string_utf16(units.as_slice())),
            None => None,
        }
    }

    /// A value of the object (current, maximum or minimum), from the bridge's answer;
    /// `None` also when the value's text is empty.
    pub fn get_value(&self, answer: Option<Vec<u16>>) -> (value: Option<String>)
        ensures
            value matches Some(v) ==> answer matches Some(u) && v@ == wide_text(u@) && v@.len() > 0,
            value is None <==> (answer matches Some(u) ==> wide_text(u@).len() == 0),
    {
        match answer {
            Some(units) => {
                let text = to_string_utf16(units.as_slice());
                if text.as_str().unicode_len() == 0 {
                    None
                } else {
                    Some(text)
                }
            },
            None => None,
        }
    }

    /// The caret's bounds (left, top, width, height), from the bridge's answer.
    pub fn get_caret_location(&self, answer: Option<TextRectInfo>) -> (location: Option<(i32, i32, i32, i32)>)
        ensures
            location == match answer {
                Some(r) => Some((r.x, r.y, r.width, r.height)),
                None => None::<(i32, i32, i32, i32)>,
            },
    {
        match answer {
            Some(r) => Some((r.x, r.y, r.width, r.height)),
            None => None,
        }
    }

    /// The selected text (start index, end index, text), from the bridge's answer;
    /// `None` when the object holds no text.
    pub fn get_text_selection(&self, answer: Option<TextSelectionInfo>) -> (selection: Option<(i32, i32, String)>)
        ensures
            selection is Some <==> self.holds_text() && answer is Some,
            selection matches Some(s) ==> answer matches Some(a) && s.0 == a.selection_start_index
                && s.1 == a.selection_end_index && s.2@ == wide_text(a.selected_text@),
    {
        if !self.supports_text() {
            return None;
        }
        match answer {
            Some(a) => Some((a.selection_start_index, a.selection_end_index, to_string_utf16(a.selected_text.as_slice()))),
            None => None,
        }
    }

    /// Character count, caret index and the index at a point, from the bridge's answer;
    /// `None` when the object holds no text.
    pub fn get_text_info(&self, answer: Option<TextInfo>) -> (info: Option<(i32, i32, i32)>)
        ensures
            info == if self.holds_text() {
                match answer {
                    Some(a) => Some((a.char_count, a.caret_index, a.index_at_point)),
                    None => None::<(i32, i32, i32)>,
                }
            } else {
                None::<(i32, i32, i32)>
            },
    {
        if !self.supports_text() {
            return None;
        }
        match answer {
            Some(a) => Some((a.char_count, a.caret_index, a.index_at_point)),
            None => None,
        }
    }

    /// The letter, word and sentence at an index, from the bridge's answer;
    /// `None` when the object holds no text.
    pub fn get_text_items(&self, answer: Option<TextItemsInfo>) -> (items: Option<(u16, String, String)>)
        ensures
            items is Some <==> self.holds_text() && answer is Some,
            items matches Some(t) ==> answer matches Some(a) && t.0 == a.letter
                && t.1@ == wide_text(a.word@) && t.2@ == wide_text(a.sentence@),
    {
        if !self.supports_text() {
            return None;
        }
        match answer {
            Some(a) => Some((a.letter, to_string_utf16(a.word.as_slice()), to_string_utf16(a.sentence.as_slice()))),
            None => None,
        }
    }

    /// The number of units to ask for the text between two indices: their distance, cut to 16 bits.
    pub fn text_range_length(start_index: i32, end_index: i32) -> (len: i16)
        requires
            i32::MIN < end_index - start_index <= i32::MAX,
        ensures
            len == (if end_index >= start_index { end_index - start_index } else { start_index - end_index }) as i16,
    {
        let d = end_index - start_index;
        let abs = if d < 0 { -d } else { d };
        abs as i16
    }

    /// The text between two indices, from the bridge's answer; `None` when the object holds no text.
    pub fn get_text_range(&self, answer: Option<Vec<u16>>) -> (text: Option<String>)
        ensures
            text is Some <==> self.holds_text() && answer is Some,
            text matches Some(t) ==> answer matches Some(u) && t@ == wide_text(u@),
    {
        if !self.supports_text() {
            return None;
        }
        match answer {
            Some(units) => Some(to_string_utf16(units.as_slice())),
            None => None,
        }
    }

    /// The bounds of the line at an index, from the bridge's answer; `None` when the object holds no text.
    pub fn get_text_line_bounds(&self, answer: Option<(i32, i32)>) -> (bounds: Option<(i32, i32)>)
        ensures
            bounds == if self.holds_text() { answer } else { None::<(i32, i32)> },
    {
        if !self.supports_text() {
            return None;
        }
        answer
    }

    /// The bounds (left, top, width, height) of the character at an index, from the bridge's answer;
    /// `None` when the object holds no text.
    pub fn get_text_rect(&self, answer: Option<TextRectInfo>) -> (rect: Option<(i32, i32, i32, i32)>)
        ensures
            rect == if self.holds_text() {
                match answer {
                    Some(r) => Some((r.x, r.y, r.width, r.height)),
                    None => None::<(i32, i32, i32, i32)>,
                }
            } else {
                None::<(i32, i32, i32, i32)>
            },
    {
        if !self.supports_text() {
            return None;
        }
        match answer {
            Some(r) => Some((r.x, r.y, r.width, r.height)),
            None => None,
        }
    }

    /// The text of a field, labelled `label:` and followed by a comma; empty without information.
    pub open spec fn labelled(label: Seq<char>, text: Option<Seq<char>>) -> Seq<char> {
        match text {
            Some(t) => label + ":"@ + t + ","@,
            None => Seq::empty(),
        }
    }

    /// How the object describes itself: its name, description, role and states.
    pub open spec fn description_text(&self) -> Seq<char> {
        let name = match self.info { Some(i) => Some(wide_text(i.name@)), None => None };
        let description = match self.info { Some(i) => Some(wide_text(i.description@)), None => None };
        let role = match self.info {
            Some(i) => role_named(wide_text(i.role@)),
            None => AccessibleRole::Unknown,
        };
        let states = match self.info { Some(i) => Some(wide_text(i.states@)), None => None };
        "AccessibleContext("@
            + Self::labelled("name"@, name)
            + Self::labelled("description"@, description)
            + Self::labelled("role"@, Some(role_name(role)))
            + Self::labelled("states"@, states)
            + ")"@
    }

    /// Appends `label:text,` to `out` when there is a text.
    fn append_labelled(out: &mut String, label: &str, text: Option<String>)
        ensures
            final(out)@ == old(out)@ + Self::labelled(label@, match text { Some(t) => Some(t@), None => None }),
    {
        if let Some(t) = text {
            out.append(label);
            out.append(":");
            out.append(t.as_str());
            out.append(",");
        } else {
            assert(old(out)@ + Seq::<char>::empty() =~= old(out)@);
        }
    }

    /// How the object describes itself, as its debug form shows it:
    /// `AccessibleContext(name:..,description:..,role:..,states:..,)`, each field present
    /// only when the bridge gave information.
    pub fn describe(&self) -> (text: String)
        ensures
            text@ == self.description_text(),
    {
        let mut out = String::from_str("AccessibleContext(");
        Self::append_labelled(&mut out, "name", self.get_name());
        Self::append_labelled(&mut out, "description", self.get_description());
        let role = self.get_role();
        Self::append_labelled(&mut out, "role", Some(String::from_str(role.to_str())));
        Self::append_labelled(&mut out, "states", self.get_states());
        out.append(")");
        out
    }
}


/// An object holds text exactly when the bridge gave information for it with the accessible
/// text flag set; no other flag of the information counts.
pub proof fn lemma_holds_text_exactly(ctx: AccessibleContext)
    ensures
        ctx.holds_text() <==> (ctx.info matches Some(i) && i.accessible_text != 0),
        ctx.info is None ==> !ctx.holds_text(),
        (ctx.info matches Some(i) && i.accessible_text == 0) ==> !ctx.holds_text(),
{
}

/// A nonnegative count of the bridge designates that many entries, however large; a negative
/// count designates none. So a table read by such a count keeps exactly its first `count` entries.
pub proof fn lemma_count_of_exact<T>(count: i32, table: Seq<T>)
    ensures
        count >= 0 ==> count_of(count) == count as int,
        count < 0 ==> count_of(count) == 0,
        0 <= count <= table.len() ==> table.take(count_of(count)).len() == count as int,
        0 <= count <= table.len() ==> forall|k: int| 0 <= k < count ==>
            #[trigger] table.take(count_of(count))[k] == table[k],
{
}

/// How an object describes itself: with information, its name, description, role and states
/// (the states as the object reports them, not their English form), each followed by a comma;
/// without information, only its role, which is `unknown`.
pub proof fn lemma_description_fields(ctx: AccessibleContext)
    ensures
        ctx.info matches Some(i) ==> ctx.description_text() == "AccessibleContext("@
            + ("name"@ + ":"@ + wide_text(i.name@) + ","@)
            + ("description"@ + ":"@ + wide_text(i.description@) + ","@)
            + ("role"@ + ":"@ + role_name(role_named(wide_text(i.role@))) + ","@)
            + ("states"@ + ":"@ + wide_text(i.states@) + ","@)
            + ")"@,
        ctx.info is None ==> ctx.description_text() == "AccessibleContext("@
            + Seq::<char>::empty()
            + Seq::<char>::empty()
            + ("role"@ + ":"@ + role_name(AccessibleRole::Unknown) + ","@)
            + Seq::<char>::empty()
            + ")"@,
{
}

/// The buffer that sets an editable text reads back as that text when the text has no NUL
/// character and its UTF-16 units leave room for the terminator.
pub proof fn lemma_text_contents_read_back(text: Seq<char>)
    requires
        utf16_encode(text).len() < MAX_STRING_SIZE - 1,
        forall|k: int| 0 <= k < text.len() ==> (text[k] as u32) != 0,
    ensures
        wide_text(padded(utf16_encode(text), MAX_STRING_SIZE - 1)) == text,
{
    lemma_padded_read_back(text, MAX_STRING_SIZE - 1);
}

/// Each action name of a to-do record reads back as the name asked for, when the name has no
/// NUL character and leaves room for the terminator in its buffer.
pub proof fn lemma_action_name_read_back(name: Seq<char>)
    requires
        utf16_encode(name).len() < SHORT_STRING_SIZE,
        forall|k: int| 0 <= k < name.len() ==> (name[k] as u32) != 0,
    ensures
        wide_text(padded(utf16_encode(name), SHORT_STRING_SIZE as int)) == name,
{
    lemma_padded_read_back(name, SHORT_STRING_SIZE as int);
}

/// A text has no more UTF-16 units than twice its characters.
proof fn lemma_encode_len(text: Seq<char>)
    ensures
        utf16_encode(text).len() <= 2 * text.len(),
    decreases text.len(),
{
    if text.len() > 0 {
        lemma_encode_len(text.drop_first());
    }
}

/// An object whose role buffer holds the name of role `r`, as the bridge writes it, reports
/// role `r`.
pub proof fn lemma_role_read_back(ctx: AccessibleContext, r: AccessibleRole)
    requires
        ctx.info matches Some(i) && i.role@ == padded(utf16_encode(role_name(r)), SHORT_STRING_SIZE as int),
    ensures
        (match ctx.info {
            Some(i) => role_named(wide_text(i.role@)),
            None => AccessibleRole::Unknown,
        }) == r,
{
    reveal_strlit("alert");
    reveal_strlit("column header");
    reveal_strlit("canvas");
    reveal_strlit("combo box");
    reveal_strlit("desktop icon");
    reveal_strlit("internal frame");
    reveal_strlit("desktop pane");
    reveal_strlit("option pane");
    reveal_strlit("window");
    reveal_strlit("frame");
    reveal_strlit("dialog");
    reveal_strlit("color chooser");
    reveal_strlit("directory pane");
    reveal_strlit("file chooser");
    reveal_strlit("filler");
    reveal_strlit("hyperlink");
    reveal_strlit("icon");
    reveal_strlit("label");
    reveal_strlit("root pane");
    reveal_strlit("glass pane");
    reveal_strlit("layered pane");
    reveal_strlit("list");
    reveal_strlit("list item");
    reveal_strlit("menu bar");
    reveal_strlit("popup menu");
    reveal_strlit("menu");
    reveal_strlit("menu item");
    reveal_strlit("separator");
    reveal_strlit("page tab list");
    reveal_strlit("page tab");
    reveal_strlit("panel");
    reveal_strlit("progress bar");
    reveal_strlit("password text");
    reveal_strlit("push button");
    reveal_strlit("toggle button");
    reveal_strlit("check box");
    reveal_strlit("radio button");
    reveal_strlit("row header");
    reveal_strlit("scroll pane");
    reveal_strlit("scroll bar");
    reveal_strlit("viewport");
    reveal_strlit("slider");
    reveal_strlit("split pane");
    reveal_strlit("table");
    reveal_strlit("text");
    reveal_strlit("tree");
    reveal_strlit("tool bar");
    reveal_strlit("tool tip");
    reveal_strlit("awt component");
    reveal_strlit("swing component");
    reveal_strlit("unknown");
    reveal_strlit("status bar");
    reveal_strlit("date editor");
    reveal_strlit("spin box");
    reveal_strlit("font chooser");
    reveal_strlit("group box");
    reveal_strlit("header");
    reveal_strlit("footer");
    reveal_strlit("paragraph");
    reveal_strlit("ruler");
    reveal_strlit("editbar");
    reveal_strlit("progress monitor");
    let name = role_name(r);
    assert(name.len() <= 16);
    assert(forall|k: int| 0 <= k < name.len() ==> (name[k] as u32) != 0);
    lemma_encode_len(name);
    lemma_padded_read_back(name, SHORT_STRING_SIZE as int);
    lemma_role_named_of_name(r);
}

} // verus!
