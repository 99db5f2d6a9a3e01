use regex_parsers::capture::Cap;
use regex_parsers::chain::{ChainAssembler, ChainNext};
use regex_parsers::overlay::Overlay;
use regex_parsers::pattern::{dispatch, Binding, GroupSel, PatternSpec};
use regex_parsers::traits::{RegexParserApply, RegexParserChain, RegexParserChained};
use std::sync::Arc;

fn pat(pattern: &str, slots: usize, bindings: Vec<Binding>) -> PatternSpec {
    PatternSpec::new(pattern.to_string(), slots, bindings).unwrap()
}

fn by_name(name: &str, slot: usize) -> Binding {
    Binding { group: GroupSel::Name(name.to_string()), slot }
}

fn by_index(idx: usize, slot: usize) -> Binding {
    Binding { group: GroupSel::Index(idx), slot }
}

#[derive(Debug, PartialEq)]
struct Employee {
    name: Arc<String>,
    surname: String,
    age: u16,
    weight: u8,
    id: String,
}

fn employee_specs() -> Vec<PatternSpec> {
    vec![
        pat(
            r"^(?P<name>[A-Z][a-z]+)\s+(?P<surname>[A-Z][a-z]+)$",
            5,
            vec![by_name("name", 0), by_name("surname", 1)],
        ),
        pat(
            r"^(?P<age>\d+)\s+(?P<weight>\d+)$",
            5,
            vec![by_name("age", 2), by_name("weight", 3)],
        ),
        pat(r"^(?P<id>.+)$", 5, vec![by_name("id", 4)]),
    ]
}

fn build_employee(row: &[Option<String>]) -> Employee {
    Employee {
        name: Cap::new(row[0].as_deref()).convert().unwrap(),
        surname: Cap::new(row[1].as_deref()).convert().unwrap(),
        age: Cap::new(row[2].as_deref()).convert().unwrap(),
        weight: Cap::new(row[3].as_deref()).convert().unwrap(),
        id: Cap::new(row[4].as_deref()).convert().unwrap(),
    }
}

struct EmployeeChain(ChainAssembler);

impl<'t> RegexParserChain<'t> for Employee {
    type Chain = EmployeeChain;

    fn create_chain() -> EmployeeChain {
        EmployeeChain(ChainAssembler::new(employee_specs(), 5).unwrap())
    }
}

impl<'t> RegexParserChained<'t> for EmployeeChain {
    type Chained = Employee;

    fn parse_chain(self, txt: &'t str) -> (bool, ChainNext<Self, Employee>) {
        match self.0.advance(txt) {
            (m, ChainNext::Step(c)) => (m, ChainNext::Step(EmployeeChain(c))),
            (m, ChainNext::Complete(row)) => (m, ChainNext::Complete(build_employee(&row))),
        }
    }
}

struct EmployeeApply {
    name: Option<Arc<String>>,
    surname: Option<String>,
    age: Option<u16>,
    weight: Option<u8>,
    id: Option<String>,
}

impl EmployeeApply {
    fn apply(self, e: &mut Employee) {
        if let Some(v) = self.name {
            e.name = v;
        }
        if let Some(v) = self.surname {
            e.surname = v;
        }
        if let Some(v) = self.age {
            e.age = v;
        }
        if let Some(v) = self.weight {
            e.weight = v;
        }
        if let Some(v) = self.id {
            e.id = v;
        }
    }
}

impl<'t> RegexParserApply<'t> for Employee {
    type Apply = EmployeeApply;

    fn parse_apply(txt: &'t str) -> Option<EmployeeApply> {
        let specs = employee_specs();
        let (_k, row) = dispatch(&specs, txt)?;
        Some(EmployeeApply {
            name: Cap::new(row[0]).convert().unwrap(),
            surname: Cap::new(row[1]).convert().unwrap(),
            age: Cap::new(row[2]).convert().unwrap(),
            weight: Cap::new(row[3]).convert().unwrap(),
            id: Cap::new(row[4]).convert().unwrap(),
        })
    }
}

fn step(c: EmployeeChain, txt: &str) -> EmployeeChain {
    let (matched, next) = c.parse_chain(txt);
    assert!(matched);
    match next {
        ChainNext::Step(c) => c,
        ChainNext::Complete(_) => unreachable!(),
    }
}

#[test]
fn struct_named_mult() {
    let e = Employee::create_chain();
    let e = step(e, "Anca Polepetka");
    let e = step(e, "33 80");
    let (matched, next) = e.parse_chain("JA38s92839");
    assert!(matched);
    let mut e = match next {
        ChainNext::Complete(e) => e,
        ChainNext::Step(_) => unreachable!(),
    };
    println!("{:?}", e);
    assert_eq!(
        e,
        Employee {
            name: Arc::new("Anca".into()),
            surname: "Polepetka".into(),
            age: 33,
            weight: 80,
            id: "JA38s92839".into(),
        }
    );
    let app = Employee::parse_apply("JA888888").unwrap();
    app.apply(&mut e);
    println!("{:?}", e);
    assert_eq!(
        e,
        Employee {
            name: Arc::new("Anca".into()),
            surname: "Polepetka".into(),
            age: 33,
            weight: 80,
            id: "JA888888".into(),
        }
    );
    let app = Employee::parse_apply("Franto Dobrak").unwrap();
    app.apply(&mut e);
    println!("{:?}", e);
    assert_eq!(
        e,
        Employee {
            name: Arc::new("Franto".into()),
            surname: "Dobrak".into(),
            age: 33,
            weight: 80,
            id: "JA888888".into(),
        }
    );
}

#[test]
fn chain_rejects_bad_configuration() {
    // An empty chain is refused.
    assert!(ChainAssembler::new(Vec::new(), 5).is_none());
    // A step that disagrees about the target's width is refused.
    let steps = vec![pat(r"^(?P<id>.+)$", 4, vec![by_name("id", 3)])];
    assert!(ChainAssembler::new(steps, 5).is_none());
}

#[test]
fn chain_no_match_leaves_state_unchanged() {
    let chain = ChainAssembler::new(employee_specs(), 5).unwrap();
    // The first pattern wants two capitalised words; digits do not match,
    // and the state comes back ready for a retry.
    let (matched, next) = chain.advance("33 80");
    assert!(!matched);
    let chain = match next {
        ChainNext::Step(c) => c,
        ChainNext::Complete(_) => unreachable!(),
    };
    // The same state still accepts the right first input.
    let (matched, _) = chain.advance("Anca Polepetka");
    assert!(matched);
}

#[test]
fn chain_completes_only_after_last_pattern() {
    let chain = ChainAssembler::new(employee_specs(), 5).unwrap();
    let (matched, next) = chain.advance("Anca Polepetka");
    assert!(matched);
    // One matched step of three is not completion.
    let chain = match next {
        ChainNext::Step(c) => c,
        ChainNext::Complete(_) => unreachable!(),
    };
    let (matched, next) = chain.advance("33 80");
    assert!(matched);
    assert!(matches!(next, ChainNext::Step(_)));
}

#[test]
fn chain_keeps_fields_a_later_step_does_not_capture() {
    // Both steps bind slot 0, but the second step's group is optional.  When
    // it is absent, the value set by the first step stays.
    let steps = vec![
        pat(r"^v=(\w+)$", 2, vec![by_index(1, 0)]),
        pat(r"^w(\w+)?=(\d+)$", 2, vec![by_index(1, 0), by_index(2, 1)]),
    ];
    let chain = ChainAssembler::new(steps, 2).unwrap();
    let (matched, next) = chain.advance("v=keep");
    assert!(matched);
    let chain = match next {
        ChainNext::Step(c) => c,
        ChainNext::Complete(_) => unreachable!(),
    };
    let (matched, next) = chain.advance("w=9");
    assert!(matched);
    let row = match next {
        ChainNext::Complete(r) => r,
        ChainNext::Step(_) => unreachable!(),
    };
    assert_eq!(row, vec![Some("keep".to_string()), Some("9".to_string())]);
}

#[test]
fn overlay_applies_only_captured_fields() {
    let ps = pat(
        r"^(?P<a>[a-z]+)?\s*(?P<b>\d+)?$",
        2,
        vec![by_name("a", 0), by_name("b", 1)],
    );
    let ov = Overlay::extract(&ps, "7").unwrap();
    let mut target: Vec<Option<String>> = vec![Some("old".into()), None];
    ov.apply(&mut target);
    // Only the captured slot is overwritten; the other keeps its value.
    assert_eq!(target, vec![Some("old".into()), Some("7".into())]);
}

#[test]
fn overlay_apply_is_idempotent() {
    let ps = pat(
        r"^(?P<a>[a-z]+)?\s*(?P<b>\d+)?$",
        2,
        vec![by_name("a", 0), by_name("b", 1)],
    );
    let ov = Overlay::extract(&ps, "abc 9").unwrap();
    let mut once: Vec<Option<String>> = vec![Some("x".into()), Some("y".into())];
    ov.apply(&mut once);
    let mut twice: Vec<Option<String>> = vec![Some("x".into()), Some("y".into())];
    ov.apply(&mut twice);
    ov.apply(&mut twice);
    assert_eq!(once, twice);
    assert_eq!(once, vec![Some("abc".into()), Some("9".into())]);
}

#[test]
fn overlay_extract_fails_on_no_match() {
    let ps = pat(r"^(?P<b>\d+)$", 1, vec![by_name("b", 0)]);
    assert!(Overlay::extract(&ps, "not a number").is_none());
}
