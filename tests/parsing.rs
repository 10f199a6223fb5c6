use genapi_node::elem_type::{AccessMode, MergePriority, NameSpace, Visibility};
use genapi_node::node_base::{NodeAttributeBase, NodeBase, NodeElementBase, ParseError};
use genapi_node::xml::XmlNode;

fn pairs(items: &[(&str, &str)]) -> Vec<(String, String)> {
    items.iter().map(|(k, v)| (k.to_string(), v.to_string())).collect()
}

fn node(attrs: &[(&str, &str)], children: &[(&str, &str)]) -> XmlNode {
    XmlNode { attributes: pairs(attrs), children: pairs(children) }
}

#[test]
fn attribute_defaults() {
    let n = node(&[("Name", "Gain")], &[]);
    let a = NodeAttributeBase::parse(&n).unwrap();
    assert_eq!(a.name, "Gain");
    assert_eq!(a.name_space, NameSpace::Custom);
    assert_eq!(a.merge_priority, MergePriority::Mid);
    assert_eq!(a.expose_static, None);
}

#[test]
fn attribute_values() {
    let n = node(
        &[("MergePriority", "-1"), ("Name", "Width"), ("NameSpace", "Standard"), ("ExposeStatic", "No")],
        &[],
    );
    let a = NodeAttributeBase::parse(&n).unwrap();
    assert_eq!(a.name, "Width");
    assert_eq!(a.name_space, NameSpace::Standard);
    assert_eq!(a.merge_priority, MergePriority::Low);
    assert_eq!(a.expose_static, Some(false));
    let high = node(&[("Name", "X"), ("MergePriority", "1"), ("ExposeStatic", "Yes")], &[]);
    let a = NodeAttributeBase::parse(&high).unwrap();
    assert_eq!(a.merge_priority, MergePriority::High);
    assert_eq!(a.expose_static, Some(true));
}

#[test]
fn attribute_missing_name() {
    let n = node(&[("NameSpace", "Standard")], &[]);
    assert_eq!(NodeAttributeBase::parse(&n).unwrap_err(), ParseError::MissingName);
}

#[test]
fn attribute_invalid_text() {
    let n = node(&[("Name", "Gain"), ("NameSpace", "Vendor")], &[]);
    assert_eq!(NodeAttributeBase::parse(&n).unwrap_err(), ParseError::InvalidText);
    let n = node(&[("Name", "Gain"), ("ExposeStatic", "true")], &[]);
    assert_eq!(NodeAttributeBase::parse(&n).unwrap_err(), ParseError::InvalidText);
}

#[test]
fn element_defaults() {
    let e = NodeElementBase::parse(&node(&[("Name", "A")], &[])).unwrap();
    assert_eq!(e.visibility, Visibility::Beginner);
    assert!(!e.is_deprecated);
    assert_eq!(e.imposed_access_mode, AccessMode::RW);
    assert!(e.p_errors.is_empty());
    assert_eq!(e.display_name, None);
    assert_eq!(e.tool_tip, None);
}

#[test]
fn element_all_children() {
    let n = node(
        &[("Name", "A")],
        &[
            ("Extension", "ignored"),
            ("ToolTip", "tip"),
            ("Description", "desc"),
            ("DisplayName", "Pretty"),
            ("Visibility", "Guru"),
            ("DocuURL", "http://x"),
            ("IsDeprecated", "Yes"),
            ("EventID", "0A"),
            ("pIsImplemented", "Impl"),
            ("pIsAvailable", "Avail"),
            ("pIsLocked", "Lock"),
            ("pBlockPolling", "Block"),
            ("ImposedAccessMode", "RO"),
            ("pError", "E1"),
            ("pError", "E2"),
            ("pAlias", "Al"),
            ("pCastAlias", "Cast"),
        ],
    );
    let e = NodeElementBase::parse(&n).unwrap();
    assert_eq!(e.tool_tip.as_deref(), Some("tip"));
    assert_eq!(e.description.as_deref(), Some("desc"));
    assert_eq!(e.display_name.as_deref(), Some("Pretty"));
    assert_eq!(e.visibility, Visibility::Guru);
    assert_eq!(e.docu_url.as_deref(), Some("http://x"));
    assert!(e.is_deprecated);
    assert_eq!(e.event_id.as_deref(), Some("0A"));
    assert_eq!(e.p_is_implemented.as_deref(), Some("Impl"));
    assert_eq!(e.p_is_available.as_deref(), Some("Avail"));
    assert_eq!(e.p_is_locked.as_deref(), Some("Lock"));
    assert_eq!(e.p_block_polling.as_deref(), Some("Block"));
    assert_eq!(e.imposed_access_mode, AccessMode::RO);
    assert_eq!(e.p_errors, vec!["E1".to_string(), "E2".to_string()]);
    assert_eq!(e.p_alias.as_deref(), Some("Al"));
    assert_eq!(e.p_cast_alias.as_deref(), Some("Cast"));
}

#[test]
fn element_out_of_order_child_is_not_read() {
    let n = node(&[], &[("Description", "d"), ("ToolTip", "t")]);
    let e = NodeElementBase::parse(&n).unwrap();
    assert_eq!(e.description.as_deref(), Some("d"));
    assert_eq!(e.tool_tip, None);
}

#[test]
fn element_invalid_text() {
    let n = node(&[], &[("Visibility", "Everyone")]);
    assert_eq!(NodeElementBase::parse(&n).unwrap_err(), ParseError::InvalidText);
    let n = node(&[], &[("ImposedAccessMode", "XX")]);
    assert_eq!(NodeElementBase::parse(&n).unwrap_err(), ParseError::InvalidText);
}

#[test]
fn display_name_falls_back_to_name() {
    let n = node(&[("Name", "ExposureTime")], &[("ToolTip", "t")]);
    let a = NodeAttributeBase::parse(&n).unwrap();
    let e = NodeElementBase::parse(&n).unwrap();
    let b = NodeBase::new(&a, &e);
    assert_eq!(b.display_name(), "ExposureTime");
    assert_eq!(b.display_name(), b.name());
}

#[test]
fn node_base_getters() {
    let n = node(
        &[("Name", "PixelFormat"), ("NameSpace", "Standard")],
        &[
            ("DisplayName", "Pixel Format"),
            ("Visibility", "Expert"),
            ("pIsLocked", "TLParamsLocked"),
            ("pError", "E1"),
        ],
    );
    let a = NodeAttributeBase::parse(&n).unwrap();
    let e = NodeElementBase::parse(&n).unwrap();
    let b = NodeBase::new(&a, &e);
    assert_eq!(b.name(), "PixelFormat");
    assert_eq!(b.display_name(), "Pixel Format");
    assert_eq!(b.name_space(), NameSpace::Standard);
    assert_eq!(b.merge_priority(), MergePriority::Mid);
    assert_eq!(b.expose_static(), None);
    assert_eq!(b.visibility(), Visibility::Expert);
    assert!(!b.is_deprecated());
    assert_eq!(b.imposed_access_mode(), AccessMode::RW);
    assert_eq!(b.p_errors(), &["E1".to_string()][..]);
    assert_eq!(b.p_is_locked(), Some("TLParamsLocked"));
    assert_eq!(b.p_is_available(), None);
    assert_eq!(b.tool_tip(), None);
}
