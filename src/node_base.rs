use vstd::prelude::*;

use crate::elem_type::{
    access_mode_of, bool_of, bool_from_text, merge_priority_of, name_space_of, visibility_of,
    AccessMode, MergePriority, NameSpace, Visibility,
};
use crate::xml::{find_attr, run_end, text_if, next_pos, XmlNode};

verus! {

/// Why an element could not be read as a node.
#[derive(Debug, Clone, Copy, PartialEq, Eq, Structural)]
pub enum ParseError {
    /// The mandatory `Name` attribute is absent.
    MissingName,
    /// An attribute or child element holds text outside its allowed values.
    InvalidText,
}

/// The identity of a node, shared by all kinds.
#[derive(Debug, Clone)]
pub struct NodeAttributeBase {
    pub name: String,
    pub name_space: NameSpace,
    pub merge_priority: MergePriority,
    pub expose_static: Option<bool>,
}

/// The descriptive and dependency metadata of a node, shared by all kinds.
#[derive(Debug, Clone)]
pub struct NodeElementBase {
    pub tool_tip: Option<String>,
    pub description: Option<String>,
    pub display_name: Option<String>,
    pub visibility: Visibility,
    pub docu_url: Option<String>,
    pub is_deprecated: bool,
    pub event_id: Option<String>,
    pub p_is_implemented: Option<String>,
    pub p_is_available: Option<String>,
    pub p_is_locked: Option<String>,
    pub p_block_polling: Option<String>,
    pub imposed_access_mode: AccessMode,
    pub p_errors: Vec<String>,
    pub p_alias: Option<String>,
    pub p_cast_alias: Option<String>,
}

pub open spec fn opt_view(o: Option<String>) -> Option<Seq<char>> {
    match o {
        Some(s) => Some(s@),
        None => None,
    }
}

/// Reads an optional text with `f`, taking `default` when the text is absent.
pub open spec fn read_or<T>(t: Option<Seq<char>>, f: spec_fn(Seq<char>) -> Option<T>, default: T) -> Option<T> {
    match t {
        Some(s) => f(s),
        None => Some(default),
    }
}

pub open spec fn attr_text(node: XmlNode, key: Seq<char>) -> Option<Seq<char>> {
    find_attr(node.attributes@, key, 0)
}

/// The attribute texts that are present all hold allowed values.
pub open spec fn attr_texts_valid(node: XmlNode) -> bool {
    &&& read_or(attr_text(node, "NameSpace"@), |s| name_space_of(s), NameSpace::Custom).is_some()
    &&& read_or(attr_text(node, "MergePriority"@), |s| merge_priority_of(s), MergePriority::Mid).is_some()
    &&& match attr_text(node, "ExposeStatic"@) {
        Some(s) => bool_of(s).is_some(),
        None => true,
    }
}

/// The tag of the optional child elements, in the order in which they are read.
pub open spec fn elem_tag(k: int) -> Seq<char> {
    if k == 0 {
        "Extension"@
    } else if k == 1 {
        "ToolTip"@
    } else if k == 2 {
        "Description"@
    } else if k == 3 {
        "DisplayName"@
    } else if k == 4 {
        "Visibility"@
    } else if k == 5 {
        "DocuURL"@
    } else if k == 6 {
        "IsDeprecated"@
    } else if k == 7 {
        "EventID"@
    } else if k == 8 {
        "pIsImplemented"@
    } else if k == 9 {
        "pIsAvailable"@
    } else if k == 10 {
        "pIsLocked"@
    } else if k == 11 {
        "pBlockPolling"@
    } else if k == 12 {
        "ImposedAccessMode"@
    } else if k == 13 {
        "pError"@
    } else if k == 14 {
        "pAlias"@
    } else {
        "pCastAlias"@
    }
}

/// The index of the tag that may be repeated.
pub open spec fn error_slot() -> int {
    13
}

/// Where the child for tag `k` is looked for: each tag in turn takes the next
/// child if it carries that tag, and the repeatable tag takes a whole run.
pub open spec fn slot_pos(ch: Seq<(String, String)>, k: int) -> int
    decreases k,
{
    if k <= 0 {
        0
    } else if k - 1 == error_slot() {
        run_end(ch, slot_pos(ch, k - 1), elem_tag(k - 1))
    } else {
        next_pos(ch, slot_pos(ch, k - 1), elem_tag(k - 1))
    }
}

/// The text of the child for tag `k`, when there is one.
pub open spec fn slot_text(ch: Seq<(String, String)>, k: int) -> Option<Seq<char>> {
    text_if(ch, slot_pos(ch, k), elem_tag(k))
}

/// The child texts that are present all hold allowed values.
pub open spec fn elem_texts_valid(ch: Seq<(String, String)>) -> bool {
    &&& read_or(slot_text(ch, 4), |s| visibility_of(s), Visibility::Beginner).is_some()
    &&& read_or(slot_text(ch, 6), |s| bool_of(s), false).is_some()
    &&& read_or(slot_text(ch, 12), |s| access_mode_of(s), AccessMode::RW).is_some()
}

/// The fields of `e` are those read from the children `ch`.
pub open spec fn elem_matches(ch: Seq<(String, String)>, e: NodeElementBase) -> bool {
    &&& opt_view(e.tool_tip) == slot_text(ch, 1)
    &&& opt_view(e.description) == slot_text(ch, 2)
    &&& opt_view(e.display_name) == slot_text(ch, 3)
    &&& read_or(slot_text(ch, 4), |s| visibility_of(s), Visibility::Beginner) == Some(e.visibility)
    &&& opt_view(e.docu_url) == slot_text(ch, 5)
    &&& read_or(slot_text(ch, 6), |s| bool_of(s), false) == Some(e.is_deprecated)
    &&& opt_view(e.event_id) == slot_text(ch, 7)
    &&& opt_view(e.p_is_implemented) == slot_text(ch, 8)
    &&& opt_view(e.p_is_available) == slot_text(ch, 9)
    &&& opt_view(e.p_is_locked) == slot_text(ch, 10)
    &&& opt_view(e.p_block_polling) == slot_text(ch, 11)
    &&& read_or(slot_text(ch, 12), |s| access_mode_of(s), AccessMode::RW) == Some(e.imposed_access_mode)
    &&& e.p_errors@.map_values(|s: String| s@) == ch.subrange(slot_pos(ch, 13), slot_pos(ch, 14)).map_values(
        |c: (String, String)| c.1@,
    )
    &&& opt_view(e.p_alias) == slot_text(ch, 14)
    &&& opt_view(e.p_cast_alias) == slot_text(ch, 15)
}

/// A read-only view of the metadata that every node carries.
pub struct NodeBase<'a> {
    pub attr: &'a NodeAttributeBase,
    pub elem: &'a NodeElementBase,
}

/// The name shown to users: the display name when one is set, else the name.
pub open spec fn display_name_of(attr: NodeAttributeBase, elem: NodeElementBase) -> Seq<char> {
    match elem.display_name {
        Some(d) => d@,
        None => attr.name@,
    }
}

impl<'a> NodeBase<'a> {
    pub fn new(attr: &'a NodeAttributeBase, elem: &'a NodeElementBase) -> (r: Self)
        ensures
            *r.attr == *attr,
            *r.elem == *elem,
    {
        NodeBase { attr, elem }
    }

    pub fn name(&self) -> (r: &str)
        ensures
            r@ == self.attr.name@,
    {
        self.attr.name.as_str()
    }

    pub fn name_space(&self) -> (r: NameSpace)
        ensures
            r == self.attr.name_space,
    {
        self.attr.name_space
    }

    pub fn merge_priority(&self) -> (r: MergePriority)
        ensures
            r == self.attr.merge_priority,
    {
        self.attr.merge_priority
    }

    pub fn expose_static(&self) -> (r: Option<bool>)
        ensures
            r == self.attr.expose_static,
    {
        self.attr.expose_static
    }

    pub fn display_name(&self) -> (r: &str)
        ensures
            r@ == display_name_of(*self.attr, *self.elem),
    {
        match &self.elem.display_name {
            Some(d) => d.as_str(),
            None => self.name(),
        }
    }

    pub fn visibility(&self) -> (r: Visibility)
        ensures
            r == self.elem.visibility,
    {
        self.elem.visibility
    }

    pub fn is_deprecated(&self) -> (r: bool)
        ensures
            r == self.elem.is_deprecated,
    {
        self.elem.is_deprecated
    }

    pub fn imposed_access_mode(&self) -> (r: AccessMode)
        ensures
            r == self.elem.imposed_access_mode,
    {
        self.elem.imposed_access_mode
    }

    pub fn p_errors(&self) -> (r: &[String])
        ensures
            r@ == self.elem.p_errors@,
    {
        self.elem.p_errors.as_slice()
    }

    pub fn description(&self) -> (r: Option<&str>)
        ensures
            match r {
                Some(t) => opt_view(self.elem.description) == Some(t@),
                None => self.elem.description.is_none(),
            },
    {
        match &self.elem.description {
            Some(t) => Some(t.as_str()),
            None => None,
        }
    }

    pub fn tool_tip(&self) -> (r: Option<&str>)
        ensures
            match r {
                Some(t) => opt_view(self.elem.tool_tip) == Some(t@),
                None => self.elem.tool_tip.is_none(),
            },
    {
        match &self.elem.tool_tip {
            Some(t) => Some(t.as_str()),
            None => None,
        }
    }

    pub fn docu_url(&self) -> (r: Option<&str>)
        ensures
            match r {
                Some(t) => opt_view(self.elem.docu_url) == Some(t@),
                None => self.elem.docu_url.is_none(),
            },
    {
        match &self.elem.docu_url {
            Some(t) => Some(t.as_str()),
            None => None,
        }
    }

    pub fn event_id(&self) -> (r: Option<&str>)
        ensures
            match r {
                Some(t) => opt_view(self.elem.event_id) == Some(t@),
                None => self.elem.event_id.is_none(),
            },
    {
        match &self.elem.event_id {
            Some(t) => Some(t.as_str()),
            None => None,
        }
    }

    pub fn p_is_implemented(&self) -> (r: Option<&str>)
        ensures
            match r {
                Some(t) => opt_view(self.elem.p_is_implemented) == Some(t@),
                None => self.elem.p_is_implemented.is_none(),
            },
    {
        match &self.elem.p_is_implemented {
            Some(t) => Some(t.as_str()),
            None => None,
        }
    }

    pub fn p_is_available(&self) -> (r: Option<&str>)
        ensures
            match r {
                Some(t) => opt_view(self.elem.p_is_available) == Some(t@),
                None => self.elem.p_is_available.is_none(),
            },
    {
        match &self.elem.p_is_available {
            Some(t) => Some(t.as_str()),
            None => None,
        }
    }

    pub fn p_is_locked(&self) -> (r: Option<&str>)
        ensures
            match r {
                Some(t) => opt_view(self.elem.p_is_locked) == Some(t@),
                None => self.elem.p_is_locked.is_none(),
            },
    {
        match &self.elem.p_is_locked {
            Some(t) => Some(t.as_str()),
            None => None,
        }
    }

    pub fn p_block_polling(&self) -> (r: Option<&str>)
        ensures
            match r {
                Some(t) => opt_view(self.elem.p_block_polling) == Some(t@),
                None => self.elem.p_block_polling.is_none(),
            },
    {
        match &self.elem.p_block_polling {
            Some(t) => Some(t.as_str()),
            None => None,
        }
    }

    pub fn p_alias(&self) -> (r: Option<&str>)
        ensures
            match r {
                Some(t) => opt_view(self.elem.p_alias) == Some(t@),
                None => self.elem.p_alias.is_none(),
            },
    {
        match &self.elem.p_alias {
            Some(t) => Some(t.as_str()),
            None => None,
        }
    }

    pub fn p_cast_alias(&self) -> (r: Option<&str>)
        ensures
            match r {
                Some(t) => opt_view(self.elem.p_cast_alias) == Some(t@),
                None => self.elem.p_cast_alias.is_none(),
            },
    {
        match &self.elem.p_cast_alias {
            Some(t) => Some(t.as_str()),
            None => None,
        }
    }
}

/// A node without a display name shows its name.
pub proof fn lemma_display_name_defaults_to_name(attr: NodeAttributeBase, elem: NodeElementBase)
    requires
        elem.display_name.is_none(),
    ensures
        display_name_of(attr, elem) == attr.name@,
{
}

impl NodeAttributeBase {
    /// Reads the identity attributes of `node`. `NameSpace` defaults to `Custom`,
    /// `MergePriority` to `Mid`, and `ExposeStatic` stays unset when absent.
    pub fn parse(node: &XmlNode) -> (r: Result<NodeAttributeBase, ParseError>)
        ensures
            attr_text(*node, "Name"@).is_none() ==> r == Err::<NodeAttributeBase, ParseError>(
                ParseError::MissingName,
            ),
            attr_text(*node, "Name"@).is_some() && !attr_texts_valid(*node)
                ==> r == Err::<NodeAttributeBase, ParseError>(ParseError::InvalidText),
            r.is_ok() <==> attr_text(*node, "Name"@).is_some() && attr_texts_valid(*node),
            r matches Ok(a) ==> {
                &&& attr_text(*node, "Name"@) == Some(a.name@)
                &&& read_or(attr_text(*node, "NameSpace"@), |s| name_space_of(s), NameSpace::Custom)
                    == Some(a.name_space)
                &&& read_or(attr_text(*node, "MergePriority"@), |s| merge_priority_of(s), MergePriority::Mid)
                    == Some(a.merge_priority)
                &&& match attr_text(*node, "ExposeStatic"@) {
                    Some(s) => bool_of(s) == Some(a.expose_static.unwrap()) && a.expose_static.is_some(),
                    None => a.expose_static.is_none(),
                }
            },
    {
        let name = match node.attribute_of("Name") {
            Some(n) => n,
            None => return Err(ParseError::MissingName),
        };
        let name_space = match node.attribute_of("NameSpace") {
            Some(t) => match NameSpace::from_text(t.as_str()) {
                Some(v) => v,
                None => return Err(ParseError::InvalidText),
            },
            None => NameSpace::Custom,
        };
        let merge_priority = match node.attribute_of("MergePriority") {
            Some(t) => match MergePriority::from_text(t.as_str()) {
                Some(v) => v,
                None => return Err(ParseError::InvalidText),
            },
            None => MergePriority::Mid,
        };
        let expose_static = match node.attribute_of("ExposeStatic") {
            Some(t) => match bool_from_text(t.as_str()) {
                Some(v) => Some(v),
                None => return Err(ParseError::InvalidText),
            },
            None => None,
        };
        Ok(NodeAttributeBase { name, name_space, merge_priority, expose_static })
    }
}

impl NodeElementBase {
    /// Reads the metadata children of `node` in their fixed order. An `Extension`
    /// child is skipped; `Visibility` defaults to `Beginner`, `IsDeprecated` to
    /// false and `ImposedAccessMode` to `RW`; `pError` may repeat.
    pub fn parse(node: &XmlNode) -> (r: Result<NodeElementBase, ParseError>)
        ensures
            r.is_ok() <==> elem_texts_valid(node.children@),
            r matches Err(e) ==> e == ParseError::InvalidText,
            r matches Ok(e) ==> elem_matches(node.children@, e),
    {
        let ghost ch = node.children@;
        let mut pos: usize = 0;
        proof {
            assert(pos as int == slot_pos(ch, 0));
        }
        let _extension = node.parse_if(&mut pos, "Extension");
        proof {
            assert(pos as int == slot_pos(ch, 1));
        }
        let tool_tip = node.parse_if(&mut pos, "ToolTip");
        proof {
            assert(pos as int == slot_pos(ch, 2));
        }
        let description = node.parse_if(&mut pos, "Description");
        proof {
            assert(pos as int == slot_pos(ch, 3));
        }
        let display_name = node.parse_if(&mut pos, "DisplayName");
        proof {
            assert(pos as int == slot_pos(ch, 4));
        }
        let visibility = match node.parse_if(&mut pos, "Visibility") {
            Some(t) => match Visibility::from_text(t.as_str()) {
                Some(v) => v,
                None => return Err(ParseError::InvalidText),
            },
            None => Visibility::Beginner,
        };
        proof {
            assert(pos as int == slot_pos(ch, 5));
        }
        let docu_url = node.parse_if(&mut pos, "DocuURL");
        proof {
            assert(pos as int == slot_pos(ch, 6));
        }
        let is_deprecated = match node.parse_if(&mut pos, "IsDeprecated") {
            Some(t) => match bool_from_text(t.as_str()) {
                Some(v) => v,
                None => return Err(ParseError::InvalidText),
            },
            None => false,
        };
        proof {
            assert(pos as int == slot_pos(ch, 7));
        }
        let event_id = node.parse_if(&mut pos, "EventID");
        proof {
            assert(pos as int == slot_pos(ch, 8));
        }
        let p_is_implemented = node.parse_if(&mut pos, "pIsImplemented");
        proof {
            assert(pos as int == slot_pos(ch, 9));
        }
        let p_is_available = node.parse_if(&mut pos, "pIsAvailable");
        proof {
            assert(pos as int == slot_pos(ch, 10));
        }
        let p_is_locked = node.parse_if(&mut pos, "pIsLocked");
        proof {
            assert(pos as int == slot_pos(ch, 11));
        }
        let p_block_polling = node.parse_if(&mut pos, "pBlockPolling");
        proof {
            assert(pos as int == slot_pos(ch, 12));
        }
        let imposed_access_mode = match node.parse_if(&mut pos, "ImposedAccessMode") {
            Some(t) => match AccessMode::from_text(t.as_str()) {
                Some(v) => v,
                None => return Err(ParseError::InvalidText),
            },
            None => AccessMode::RW,
        };
        proof {
            assert(pos as int == slot_pos(ch, 13));
        }
        let p_errors = node.parse_while(&mut pos, "pError");
        proof {
            assert(pos as int == slot_pos(ch, 14));
        }
        let p_alias = node.parse_if(&mut pos, "pAlias");
        proof {
            assert(pos as int == slot_pos(ch, 15));
        }
        let p_cast_alias = node.parse_if(&mut pos, "pCastAlias");
        Ok(
            NodeElementBase {
                tool_tip,
                description,
                display_name,
                visibility,
                docu_url,
                is_deprecated,
                event_id,
                p_is_implemented,
                p_is_available,
                p_is_locked,
                p_block_polling,
                imposed_access_mode,
                p_errors,
                p_alias,
                p_cast_alias,
            },
        )
    }
}

} // verus!
