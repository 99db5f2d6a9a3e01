use regex_parsers::capture::Cap;
use regex_parsers::pattern::{dispatch, Binding, GroupSel, PatternSpec};
use regex_parsers::traits::RegexParser;
use std::rc::Rc;
use std::sync::Arc;

fn pat(pattern: &str, slots: usize, bindings: Vec<Binding>) -> PatternSpec {
    PatternSpec::new(pattern.to_string(), slots, bindings).unwrap()
}

fn by_index(idx: usize, slot: usize) -> Binding {
    Binding { group: GroupSel::Index(idx), slot }
}

fn by_name(name: &str, slot: usize) -> Binding {
    Binding { group: GroupSel::Name(name.to_string()), slot }
}

#[derive(Debug, PartialEq)]
enum Special {
    One(String, u16),
    Two(Option<String>, Option<u8>),
    Three { name: Option<String>, age: Option<Arc<u32>> },
}

fn special_specs() -> Vec<PatternSpec> {
    vec![
        pat(r"One\(\s*(\w+),\s+(\d+)\)", 2, vec![by_index(1, 0), by_index(2, 1)]),
        pat(r"Two\((\w+)?,\s+(\d+)?\)", 2, vec![by_index(1, 0), by_index(2, 1)]),
        pat(
            r"Three\((?P<name>\w+)?,\s+(?P<age>\d+)?\)",
            2,
            vec![by_name("name", 0), by_name("age", 1)],
        ),
    ]
}

impl<'t> RegexParser<'t> for Special {
    fn parse_regex(txt: &'t str) -> Option<Self> {
        let specs = special_specs();
        let (k, row) = dispatch(&specs, txt)?;
        Some(match k {
            0 => Special::One(
                Cap::new(row[0]).convert().unwrap(),
                Cap::new(row[1]).convert().unwrap(),
            ),
            1 => Special::Two(
                Cap::new(row[0]).convert().unwrap(),
                Cap::new(row[1]).convert().unwrap(),
            ),
            _ => Special::Three {
                name: Cap::new(row[0]).convert().unwrap(),
                age: Cap::new(row[1]).convert().unwrap(),
            },
        })
    }
}

#[test]
fn regex_parser() {
    let spec = Special::parse_regex("One(Jozo, 14)");
    println!("{:?}", spec);
    assert_eq!(Some(Special::One("Jozo".into(), 14)), spec);
    let spec = Special::parse_regex("Two(Jozo, )");
    println!("{:?}", spec);
    assert_eq!(Some(Special::Two(Some("Jozo".into()), None)), spec);
    let spec = Special::parse_regex("Two(, )");
    println!("{:?}", spec);
    assert_eq!(Some(Special::Two(None, None)), spec);
    let spec = Special::parse_regex("Three(, 30)");
    println!("{:?}", spec);
    assert_eq!(Some(Special::Three { name: None, age: Some(Arc::new(30)) }), spec);
    let spec = Special::parse_regex("Three(Fero, 30)");
    println!("{:?}", spec);
    assert_eq!(Some(Special::Three { name: Some("Fero".into()), age: Some(Arc::new(30)) }), spec);
}

#[derive(Debug, PartialEq)]
enum Animal {
    Wolf { name: String, enemy: Option<Rc<Animal>> },
    Sheep { name: String, colour: u8, enemy: Option<Rc<Animal>> },
    Human { name: String, likes: Option<Arc<Animal>> },
}

fn animal_specs() -> Vec<PatternSpec> {
    vec![
        pat(
            r"^Wolf\s+(?P<name>[A-Z][a-z]+)(\s+(?P<enemy>.+))?",
            2,
            vec![by_name("name", 0), by_name("enemy", 1)],
        ),
        pat(
            r"^Sheep\s+(?P<name>[A-Z][a-z]+)\s+(?P<colour>\d+)(\s+(?P<enemy>.+))?",
            3,
            vec![by_name("name", 0), by_name("colour", 1), by_name("enemy", 2)],
        ),
        pat(
            r"^(?P<name>[A-Z][a-z]+)(\s+(?P<likes>.+))?",
            2,
            vec![by_name("name", 0), by_name("likes", 1)],
        ),
    ]
}

impl<'t> RegexParser<'t> for Animal {
    fn parse_regex(txt: &'t str) -> Option<Self> {
        let specs = animal_specs();
        let (k, row) = dispatch(&specs, txt)?;
        Some(match k {
            0 => Animal::Wolf {
                name: Cap::new(row[0]).convert().unwrap(),
                enemy: row[1].map(|t| Rc::new(Animal::parse_regex(t).unwrap())),
            },
            1 => Animal::Sheep {
                name: Cap::new(row[0]).convert().unwrap(),
                colour: Cap::new(row[1]).convert().unwrap(),
                enemy: row[2].map(|t| Rc::new(Animal::parse_regex(t).unwrap())),
            },
            _ => Animal::Human {
                name: Cap::new(row[0]).convert().unwrap(),
                likes: row[1].map(|t| Arc::new(Animal::parse_regex(t).unwrap())),
            },
        })
    }
}

#[test]
fn recursive() {
    let animals = Animal::parse_regex("Fero Sheep Mara 3 Wolf Martin Anca");
    println!("ANIMALS = {:?}", animals);
    assert_eq!(
        animals.unwrap(),
        Animal::Human {
            name: "Fero".into(),
            likes: Some(Arc::new(Animal::Sheep {
                name: "Mara".into(),
                colour: 3,
                enemy: Some(Rc::new(Animal::Wolf {
                    name: "Martin".into(),
                    enemy: Some(Rc::new(Animal::Human { name: "Anca".into(), likes: None })),
                })),
            })),
        }
    )
}

#[derive(Debug, PartialEq)]
struct Person<'t> {
    name: Arc<String>,
    surname: &'t str,
}

impl<'t> RegexParser<'t> for Person<'t> {
    fn parse_regex(txt: &'t str) -> Option<Self> {
        let ps = pat(
            r"^(?P<name>[A-Z][a-z]+)\s+(?P<surname>[A-Z][a-z]+)$",
            2,
            vec![by_name("name", 0), by_name("surname", 1)],
        );
        let row = ps.extract(txt)?;
        Some(Person {
            name: Cap::new(row[0]).convert().unwrap(),
            surname: Cap::new(row[1]).convert().unwrap(),
        })
    }
}

#[test]
fn structs_named_one() {
    let p = Person::parse_regex("Franta  Bujak").unwrap();
    assert_eq!(p, Person { name: Arc::new("Franta".into()), surname: "Bujak".into() });
}

#[test]
fn dispatch_commits_to_first_matching_variant() {
    // Both patterns match the input; the earlier variant must win.
    let specs = vec![
        pat(r"(\w+)", 1, vec![by_index(1, 0)]),
        pat(r"(\d+)", 1, vec![by_index(1, 0)]),
    ];
    let (k, row) = dispatch(&specs, "abc123").unwrap();
    assert_eq!(k, 0);
    assert_eq!(row[0], Some("abc123"));
    // Reversed order: again the earlier variant wins.
    let specs = vec![
        pat(r"(\d+)", 1, vec![by_index(1, 0)]),
        pat(r"(\w+)", 1, vec![by_index(1, 0)]),
    ];
    let (k, row) = dispatch(&specs, "abc123").unwrap();
    assert_eq!(k, 0);
    assert_eq!(row[0], Some("123"));
}

#[test]
fn dispatch_skips_non_matching_variants() {
    let specs = vec![
        pat(r"^x(\d+)$", 1, vec![by_index(1, 0)]),
        pat(r"^y(\d+)$", 1, vec![by_index(1, 0)]),
    ];
    let (k, row) = dispatch(&specs, "y42").unwrap();
    assert_eq!(k, 1);
    assert_eq!(row[0], Some("42"));
    assert!(dispatch(&specs, "z42").is_none());
}

#[test]
fn pattern_spec_rejects_bad_configuration() {
    // Invalid regular expression text.
    assert!(PatternSpec::new(r"(".to_string(), 1, vec![]).is_none());
    // A binding outside the slot range.
    assert!(PatternSpec::new(r"(\w+)".to_string(), 1, vec![by_index(1, 1)]).is_none());
    // Good configuration passes.
    assert!(PatternSpec::new(r"(\w+)".to_string(), 1, vec![by_index(1, 0)]).is_some());
}

#[test]
fn extract_applies_bindings_in_order() {
    // Two bindings target the same slot: the later one overwrites when its
    // group participated, and leaves the earlier value when it did not.
    let s = pat(r"^(a+)(b+)?$", 1, vec![by_index(1, 0), by_index(2, 0)]);
    let row = s.extract("aab").unwrap();
    assert_eq!(row[0], Some("b"));
    let row = s.extract("aa").unwrap();
    assert_eq!(row[0], Some("aa"));
}

#[test]
fn extract_returns_captured_spans() {
    // The extracted cell is the group's span, not the whole input.
    let s = pat(r"a(\d+)b", 2, vec![by_index(1, 0)]);
    let row = s.extract("xxa33byy").unwrap();
    assert_eq!(row.len(), 2);
    assert_eq!(row[0], Some("33"));
    assert_eq!(row[1], None);
    assert!(s.extract("nothing here").is_none());
}
