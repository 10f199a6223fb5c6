use genapi_node::elem_type::{
    AccessMode, DisplayNotation, FloatRepresentation, IncrementMode, IntegerRepresentation,
};
use genapi_node::evaluator::{check_value, readable, writable};
use genapi_node::node_kind::{CommandNode, EnumerationNode, FloatNode, IntegerNode, StringNode};
use genapi_node::store::{
    CommandState, EnumEntryNode, EnumerationState, FloatState, GenApiError, IntegerState, NodeData, NodeId,
    NodeKind, NodeStore, StringState,
};

fn int_kind(value: i64, min: i64, max: i64, inc_mode: IncrementMode, inc: i64) -> NodeKind {
    NodeKind::Integer(IntegerState {
        value,
        min,
        max,
        schema_min: min,
        schema_max: max,
        inc_mode,
        inc,
        representation: IntegerRepresentation::Linear,
    })
}

fn plain(kind: NodeKind) -> NodeData {
    NodeData {
        name: String::new(),
        access: AccessMode::RW,
        imposed: AccessMode::RW,
        p_is_implemented: None,
        p_is_available: None,
        p_is_locked: None,
        p_errors: Vec::new(),
        p_alias: None,
        kind,
    }
}

fn entry(name: &str, value: i64) -> EnumEntryNode {
    EnumEntryNode { name: name.to_string(), value }
}

/// 0: integer Width (16..=4096, step 16), 1: enumeration PixelFormat,
/// 2: string DeviceUserID (max 8), 3: command AcquisitionStart,
/// 4: integer flag Locked (0), 5: integer flag Err1, 6: integer flag Err2.
fn sample() -> NodeStore {
    let mut width = plain(int_kind(64, 16, 4096, IncrementMode::FixedIncrement, 16));
    width.p_is_locked = Some(NodeId(4));
    let pixel = plain(NodeKind::Enumeration(EnumerationState {
        entries: vec![entry("Mono8", 17301505), entry("Mono16", 17825799), entry("RGB8", 35127316)],
        current: 1,
    }));
    let user = plain(NodeKind::Str(StringState { value: "cam".to_string(), max_length: 8 }));
    let cmd = plain(NodeKind::Command(CommandState { pending: false }));
    let flag = |v: i64| plain(int_kind(v, 0, 1, IncrementMode::VariableIncrement, 1));
    let mut nodes = vec![width, pixel, user, cmd, flag(0), flag(0), flag(0)];
    for (n, name) in nodes.iter_mut().zip([
        "Width",
        "PixelFormat",
        "DeviceUserID",
        "AcquisitionStart",
        "Locked",
        "Err1",
        "Err2",
    ]) {
        n.name = name.to_string();
    }
    NodeStore { nodes }
}

#[test]
fn access_rules() {
    assert!(readable(AccessMode::RW, AccessMode::RO, true, true));
    assert!(!readable(AccessMode::RW, AccessMode::WO, true, true));
    assert!(!readable(AccessMode::RW, AccessMode::RW, false, true));
    assert!(writable(AccessMode::RW, AccessMode::RW, true, true, false));
    assert!(!writable(AccessMode::RO, AccessMode::RW, true, true, false));
}

#[test]
fn read_only_ceiling_forbids_writing() {
    for locked in [false, true] {
        for available in [false, true] {
            assert!(!writable(AccessMode::RW, AccessMode::RO, true, available, locked));
        }
    }
    let mut s = sample();
    s.nodes[0].imposed = AccessMode::RO;
    assert_eq!(IntegerNode(NodeId(0)).is_writable(&s), Ok(false));
    assert_eq!(IntegerNode(NodeId(0)).set_value(&mut s, 32), Err(GenApiError::NotWritable));
    assert_eq!(IntegerNode(NodeId(0)).value(&s), Ok(64));
}

#[test]
fn lock_forbids_writing() {
    assert!(!writable(AccessMode::RW, AccessMode::RW, true, true, true));
    let mut s = sample();
    assert_eq!(IntegerNode(NodeId(0)).is_writable(&s), Ok(true));
    s.nodes[4].kind = int_kind(1, 0, 1, IncrementMode::VariableIncrement, 1);
    assert_eq!(IntegerNode(NodeId(0)).is_writable(&s), Ok(false));
    assert_eq!(IntegerNode(NodeId(0)).is_readable(&s), Ok(true));
    assert_eq!(IntegerNode(NodeId(0)).set_value(&mut s, 32), Err(GenApiError::NotWritable));
}

#[test]
fn custom_error_reported_before_access_denial() {
    let mut s = sample();
    s.nodes[0].p_errors = vec![NodeId(5)];
    s.nodes[0].imposed = AccessMode::RO;
    assert_eq!(IntegerNode(NodeId(0)).set_value(&mut s, 32), Err(GenApiError::NotWritable));
    s.nodes[5].kind = int_kind(1, 0, 1, IncrementMode::VariableIncrement, 1);
    assert_eq!(IntegerNode(NodeId(0)).set_value(&mut s, 32), Err(GenApiError::CustomError(NodeId(5))));
    s.nodes[0].imposed = AccessMode::WO;
    assert_eq!(IntegerNode(NodeId(0)).value(&s), Err(GenApiError::CustomError(NodeId(5))));
}

#[test]
fn custom_error_priority() {
    let mut s = sample();
    s.nodes[0].p_errors = vec![NodeId(5), NodeId(6)];
    assert_eq!(IntegerNode(NodeId(0)).value(&s), Ok(64));
    s.nodes[6].kind = int_kind(1, 0, 1, IncrementMode::VariableIncrement, 1);
    assert_eq!(IntegerNode(NodeId(0)).value(&s), Err(GenApiError::CustomError(NodeId(6))));
    s.nodes[5].kind = int_kind(1, 0, 1, IncrementMode::VariableIncrement, 1);
    assert_eq!(IntegerNode(NodeId(0)).value(&s), Err(GenApiError::CustomError(NodeId(5))));
}

#[test]
fn check_value_cases() {
    assert!(check_value(48, 16, 4096, IncrementMode::FixedIncrement, 16));
    assert!(!check_value(50, 16, 4096, IncrementMode::FixedIncrement, 16));
    assert!(!check_value(0, 16, 4096, IncrementMode::FixedIncrement, 16));
    assert!(check_value(50, 16, 4096, IncrementMode::VariableIncrement, 16));
    assert!(check_value(i64::MAX, i64::MIN, i64::MAX, IncrementMode::FixedIncrement, 1));
}

#[test]
fn integer_round_trip() {
    let mut s = sample();
    let w = IntegerNode(NodeId(0));
    assert_eq!(w.set_value(&mut s, 1024), Ok(()));
    assert_eq!(w.value(&s), Ok(1024));
}

#[test]
fn integer_increment() {
    let mut s = sample();
    let w = IntegerNode(NodeId(0));
    assert_eq!(w.inc_mode(&s), Ok(IncrementMode::FixedIncrement));
    assert_eq!(w.inc(&s), Ok(Some(16)));
    assert_eq!(w.set_value(&mut s, 100), Err(GenApiError::InvalidValue));
    assert_eq!(w.set_value(&mut s, 4112), Err(GenApiError::InvalidValue));
    assert_eq!(w.value(&s), Ok(64));
    assert_eq!(w.set_value(&mut s, 4096), Ok(()));
    let k = w.inc(&s).unwrap().unwrap();
    assert_eq!((w.value(&s).unwrap() - w.min(&s).unwrap()) % k, 0);
    assert_eq!(IntegerNode(NodeId(4)).inc(&s), Ok(None));
    assert_eq!(w.representation(&s), Ok(IntegerRepresentation::Linear));
}

#[test]
fn integer_bounds() {
    let mut s = sample();
    let w = IntegerNode(NodeId(0));
    assert_eq!(w.min(&s), Ok(16));
    assert_eq!(w.max(&s), Ok(4096));
    assert_eq!(w.set_max(&mut s, 2048), Ok(()));
    assert_eq!(w.max(&s), Ok(2048));
    assert_eq!(w.set_max(&mut s, 8192), Err(GenApiError::InvalidValue));
    assert_eq!(w.set_min(&mut s, 0), Err(GenApiError::InvalidValue));
    assert_eq!(w.set_min(&mut s, 32), Ok(()));
    assert_eq!(w.min(&s), Ok(32));
    assert_eq!(w.set_value(&mut s, 3000), Err(GenApiError::InvalidValue));
}

#[test]
fn kind_mismatch_every_time() {
    let mut s = sample();
    let wrong = IntegerNode(NodeId(1));
    for _ in 0..2 {
        assert_eq!(wrong.value(&s), Err(GenApiError::KindMismatch));
        assert_eq!(wrong.set_value(&mut s, 1), Err(GenApiError::KindMismatch));
        assert_eq!(wrong.min(&s), Err(GenApiError::KindMismatch));
        assert_eq!(wrong.is_writable(&s), Err(GenApiError::KindMismatch));
    }
    assert_eq!(StringNode(NodeId(0)).value(&s), Err(GenApiError::KindMismatch));
}

#[test]
fn unknown_node() {
    let s = sample();
    assert_eq!(IntegerNode(NodeId(99)).value(&s), Err(GenApiError::NotFound));
    let mut t = sample();
    t.nodes[0].p_is_available = Some(NodeId(42));
    assert_eq!(IntegerNode(NodeId(0)).is_readable(&t), Err(GenApiError::NotFound));
}

#[test]
fn unavailable_node_is_not_readable() {
    let mut s = sample();
    s.nodes[2].p_is_available = Some(NodeId(4));
    assert_eq!(StringNode(NodeId(2)).is_readable(&s), Ok(false));
    assert_eq!(StringNode(NodeId(2)).value(&s), Err(GenApiError::NotReadable));
}

#[test]
fn string_round_trip() {
    let mut s = sample();
    let u = StringNode(NodeId(2));
    assert_eq!(u.value(&s), Ok("cam".to_string()));
    assert_eq!(u.set_value(&mut s, "left"), Ok(()));
    assert_eq!(u.value(&s), Ok("left".to_string()));
    assert_eq!(u.max_length(&s), Ok(8));
    assert_eq!(u.set_value(&mut s, "too long name"), Err(GenApiError::InvalidValue));
    assert_eq!(u.value(&s), Ok("left".to_string()));
}

#[test]
fn enumeration_entry_by_name() {
    let mut s = sample();
    let p = EnumerationNode(NodeId(1));
    assert_eq!(p.current_entry(&s).unwrap().name, "Mono16");
    assert_eq!(p.set_entry_by_name(&mut s, "Mono8"), Ok(()));
    assert_eq!(p.current_entry(&s).unwrap().name, "Mono8");
    assert_eq!(p.set_entry_by_name(&mut s, "Bayer"), Err(GenApiError::InvalidValue));
    assert_eq!(p.current_entry(&s).unwrap().name, "Mono8");
}

#[test]
fn enumeration_entry_by_value() {
    let mut s = sample();
    let p = EnumerationNode(NodeId(1));
    assert_eq!(p.set_entry_by_value(&mut s, 35127316), Ok(()));
    assert_eq!(p.current_entry(&s).unwrap().name, "RGB8");
    assert_eq!(p.set_entry_by_value(&mut s, 7), Err(GenApiError::InvalidValue));
    let es = p.entries(&s).unwrap();
    assert_eq!(es.len(), 3);
    assert_eq!(es[0].name, "Mono8");
    assert_eq!(es[2].value, 35127316);
    assert_eq!(p.is_readable(&s), Ok(true));
    assert_eq!(p.is_writable(&s), Ok(true));
}

#[test]
fn command_completion() {
    let mut s = sample();
    let c = CommandNode(NodeId(3));
    assert_eq!(c.is_done(&s), Ok(true));
    assert_eq!(c.execute(&mut s), Ok(()));
    assert_eq!(c.is_done(&s), Ok(false));
    assert_eq!(c.complete(&mut s), Ok(()));
    assert_eq!(c.is_done(&s), Ok(true));
    assert_eq!(c.is_done(&s), Ok(true));
    s.nodes[3].imposed = AccessMode::RO;
    assert_eq!(c.is_writable(&s), Ok(false));
    assert_eq!(c.execute(&mut s), Err(GenApiError::NotWritable));
}

#[test]
fn alias_redirects_value() {
    let mut s = sample();
    let mut alias = plain(int_kind(0, 0, 0, IncrementMode::VariableIncrement, 1));
    alias.p_alias = Some(NodeId(0));
    s.nodes.push(alias);
    let a = IntegerNode(NodeId(7));
    assert_eq!(a.value(&s), Ok(64));
    assert_eq!(a.set_value(&mut s, 128), Ok(()));
    assert_eq!(IntegerNode(NodeId(0)).value(&s), Ok(128));
    assert_eq!(a.value(&s), Ok(128));
    assert_eq!(a.set_value(&mut s, 130), Err(GenApiError::InvalidValue));
    assert_eq!(a.min(&s), Ok(16));
    assert_eq!(a.max(&s), Ok(4096));
    assert_eq!(a.inc(&s), Ok(Some(16)));
    assert_eq!(a.inc_mode(&s), Ok(IncrementMode::FixedIncrement));
    assert_eq!(a.set_max(&mut s, 1024), Ok(()));
    assert_eq!(IntegerNode(NodeId(0)).max(&s), Ok(1024));
    assert_eq!(a.set_value(&mut s, 2048), Err(GenApiError::InvalidValue));
    s.nodes[7].p_alias = Some(NodeId(1));
    assert_eq!(a.value(&s), Err(GenApiError::KindMismatch));
}

#[test]
fn lookup_by_name() {
    let s = sample();
    assert_eq!(s.lookup("PixelFormat"), Ok(NodeId(1)));
    assert_eq!(s.lookup("pixelformat"), Err(GenApiError::NotFound));
    assert_eq!(s.resolve(Some("Locked")), Ok(Some(NodeId(4))));
    assert_eq!(s.resolve(None), Ok(None));
    assert_eq!(s.resolve(Some("Height")), Err(GenApiError::NotFound));
    let w = IntegerNode(s.lookup("Width").unwrap());
    assert_eq!(w.value(&s), Ok(64));
}

#[test]
fn float_descriptions() {
    let mut s = sample();
    let mut exposure = plain(NodeKind::Float(FloatState {
        unit: Some("us".to_string()),
        inc_mode: IncrementMode::VariableIncrement,
        representation: FloatRepresentation::Logarithmic,
        display_notation: DisplayNotation::Fixed,
    }));
    exposure.imposed = AccessMode::RO;
    s.nodes.push(exposure);
    let f = FloatNode(NodeId(7));
    assert_eq!(f.unit(&s), Ok(Some("us".to_string())));
    assert_eq!(f.inc_mode(&s), Ok(IncrementMode::VariableIncrement));
    assert_eq!(f.representation(&s), Ok(FloatRepresentation::Logarithmic));
    assert_eq!(f.display_notation(&s), Ok(DisplayNotation::Fixed));
    assert_eq!(f.is_readable(&s), Ok(true));
    assert_eq!(f.is_writable(&s), Ok(false));
    assert_eq!(FloatNode(NodeId(0)).unit(&s), Err(GenApiError::KindMismatch));
    assert_eq!(IntegerNode(NodeId(7)).value(&s), Err(GenApiError::KindMismatch));
}

#[test]
fn entries_through_visitor() {
    let s = sample();
    let p = EnumerationNode(NodeId(1));
    assert_eq!(p.with_entries(&s, |es| es.len()), Ok(3));
    assert_eq!(p.with_entries(&s, |es| es[1].name.clone()), Ok("Mono16".to_string()));
    assert_eq!(EnumerationNode(NodeId(0)).with_entries(&s, |es| es.len()), Err(GenApiError::KindMismatch));
}
