use serde_dson::de::{Deserializer, EnumDeserializer, MapDeserializer, ValuesDeserializer, Visit};
use serde_dson::dson::{Dson, Literal, MapElem, Type};
use serde_dson::error::Error;

fn string(s: &str) -> Dson {
    Dson::Literal(Literal::String(s.into()))
}

fn integer(i: i64) -> Dson {
    Dson::Literal(Literal::Integer(i))
}

fn labeled(label: Dson, expr: Dson) -> Dson {
    Dson::Labeled {
        label: Box::new(label),
        expr: Box::new(expr),
    }
}

fn message(e: Error) -> String {
    match e {
        Error::Message(m) => m,
    }
}

fn any(dson: Dson) -> Result<Visit, Error> {
    Deserializer::from_dson(dson).deserialize_any()
}

fn read_string(mut de: Deserializer) -> String {
    match de.deserialize_any().unwrap() {
        Visit::String(s) => s,
        other => panic!("expected a string, got {:?}", other),
    }
}

fn read_u32(mut de: Deserializer) -> u32 {
    match de.deserialize_any().unwrap() {
        Visit::I64(i) => u32::try_from(i).unwrap(),
        other => panic!("expected an integer, got {:?}", other),
    }
}

fn sequence(visit: Visit) -> ValuesDeserializer {
    match visit {
        Visit::Sequence(values) => values,
        other => panic!("expected a sequence, got {:?}", other),
    }
}

fn mapping(visit: Visit) -> MapDeserializer {
    match visit {
        Visit::Mapping(entries) => entries,
        other => panic!("expected a map, got {:?}", other),
    }
}

fn variant(visit: Visit) -> EnumDeserializer {
    match visit {
        Visit::Enum(e) => e,
        other => panic!("expected an enum, got {:?}", other),
    }
}

fn read_strings(mut de: Deserializer) -> Vec<String> {
    let mut values = sequence(de.deserialize_any().unwrap());
    let mut out = Vec::new();
    while let Some(element) = values.next_element() {
        out.push(read_string(element));
    }
    out
}

#[derive(PartialEq, Debug)]
struct Test {
    int: u32,
    seq: Vec<String>,
}

/// Reads a `Test` the way a derived `Deserialize` asks for it.
fn read_test(dson: Dson) -> Test {
    let mut de = Deserializer::from_dson(dson);
    let mut map = mapping(de.deserialize_struct().unwrap());
    let mut int = None;
    let mut seq = None;
    while let Some(key) = map.next_key() {
        let name = read_string(key);
        let value = map.next_value();
        match name.as_str() {
            "int" => int = Some(read_u32(value)),
            "seq" => seq = Some(read_strings(value)),
            _ => {}
        }
    }
    Test {
        int: int.unwrap(),
        seq: seq.unwrap(),
    }
}

#[test]
fn test_struct() {
    let dson = Dson::Product(vec![
        labeled(string("int"), integer(1)),
        labeled(
            string("seq"),
            Dson::Vector(vec![string("a"), string("b")]),
        ),
    ]);
    let expected = Test {
        int: 1,
        seq: vec!["a".to_owned(), "b".to_owned()],
    };
    assert_eq!(expected, read_test(dson));
}

#[derive(PartialEq, Debug)]
enum E {
    Unit,
    Newtype(u32),
    Tuple(u32, String),
    Struct { a: u32 },
}

/// Reads an `E` the way a derived `Deserialize` asks for it.
fn read_e(dson: Dson) -> E {
    let de = Deserializer::from_dson(dson);
    let (name, content) = variant(de.deserialize_enum().unwrap()).variant_seed();
    match read_string(name).as_str() {
        "Unit" => {
            content.unit_variant().unwrap();
            E::Unit
        }
        "Newtype" => E::Newtype(read_u32(content.newtype_variant())),
        "Tuple" => {
            let mut values = sequence(content.tuple_variant().unwrap());
            let first = read_u32(values.next_element().unwrap());
            let second = read_string(values.next_element().unwrap());
            E::Tuple(first, second)
        }
        "Struct" => {
            let mut map = mapping(content.struct_variant().unwrap());
            let mut a = None;
            while let Some(key) = map.next_key() {
                let name = read_string(key);
                let value = map.next_value();
                if name == "a" {
                    a = Some(read_u32(value));
                }
            }
            E::Struct { a: a.unwrap() }
        }
        other => panic!("unknown variant {}", other),
    }
}

#[test]
fn test_enum() {
    let dson = labeled(string("Unit"), Dson::Product(vec![]));
    let expected = E::Unit;
    assert_eq!(expected, read_e(dson));

    let dson = labeled(string("Newtype"), integer(1));
    let expected = E::Newtype(1);
    assert_eq!(expected, read_e(dson));

    let dson = labeled(
        string("Tuple"),
        Dson::Product(vec![integer(1), string("a")]),
    );
    let expected = E::Tuple(1, "a".into());
    assert_eq!(expected, read_e(dson));

    let dson = labeled(
        string("Struct"),
        Dson::Product(vec![labeled(string("a"), integer(1))]),
    );
    let expected = E::Struct { a: 1 };
    assert_eq!(expected, read_e(dson));
}

#[test]
fn any_reads_literals() {
    assert!(matches!(any(integer(-7)).unwrap(), Visit::I64(-7)));
    let bits = 2.5f64.to_bits();
    assert!(matches!(any(Dson::Literal(Literal::Float(bits))).unwrap(), Visit::F64(b) if b == bits));
    assert!(matches!(
        any(Dson::Literal(Literal::Rational(1, 3))).unwrap(),
        Visit::Rational(1, 3)
    ));
    assert!(matches!(any(string("x")).unwrap(), Visit::String(s) if s == "x"));
}

#[test]
fn any_refuses_a_hole() {
    let e = any(Dson::Literal(Literal::Hole)).unwrap_err();
    assert_eq!(message(e), "Hole is not allowed");
}

#[test]
fn any_reads_the_empty_product_as_unit() {
    assert!(matches!(any(Dson::Product(vec![])).unwrap(), Visit::Unit));
    let e = any(Dson::Product(vec![integer(1)])).unwrap_err();
    assert_eq!(message(e), "Unexpected product");
}

#[test]
fn any_hands_out_vector_elements_in_order() {
    let mut values = sequence(any(Dson::Vector(vec![integer(1), integer(2), integer(3)])).unwrap());
    assert_eq!(read_u32(values.next_element().unwrap()), 1);
    assert_eq!(read_u32(values.next_element().unwrap()), 2);
    assert_eq!(read_u32(values.next_element().unwrap()), 3);
    assert!(values.next_element().is_none());
    assert!(values.next_element().is_none());
}

#[test]
fn any_hands_out_map_entries_in_order() {
    let dson = Dson::Mapping(vec![
        MapElem {
            key: integer(10),
            value: string("ten"),
        },
        MapElem {
            key: integer(20),
            value: string("twenty"),
        },
    ]);
    let mut map = mapping(any(dson).unwrap());
    assert!(!map.is_empty());
    assert_eq!(read_u32(map.next_key().unwrap()), 10);
    // Asking for the key again does not move on.
    assert_eq!(read_u32(map.next_key().unwrap()), 10);
    assert_eq!(read_string(map.next_value()), "ten");
    assert_eq!(read_u32(map.next_key().unwrap()), 20);
    assert_eq!(read_string(map.next_value()), "twenty");
    assert!(map.next_key().is_none());
    assert!(map.is_empty());
}

#[test]
fn any_takes_wrappers_off() {
    let dson = Dson::Attributed {
        attr: Box::new(string("attr")),
        expr: Box::new(labeled(
            string("label"),
            Dson::Comment {
                text: "note".into(),
                expr: Box::new(Dson::Typed {
                    ty: Type::Number,
                    expr: Box::new(integer(5)),
                }),
            },
        )),
    };
    let mut de = Deserializer::from_dson(dson);
    assert!(matches!(de.deserialize_any().unwrap(), Visit::I64(5)));
    // The wrappers stay off: the deserializer now holds the bare integer.
    assert!(matches!(de.deserialize_bool().unwrap_err(), Error::Message(m) if m == "Expected bool"));
    assert!(matches!(de.deserialize_any().unwrap(), Visit::I64(5)));
}

#[test]
fn newtype_struct_reads_like_any() {
    let dson = Dson::Comment {
        text: "c".into(),
        expr: Box::new(string("inner")),
    };
    let mut de = Deserializer::from_dson(dson);
    assert!(matches!(de.deserialize_newtype_struct().unwrap(), Visit::String(s) if s == "inner"));
}

#[test]
fn bool_is_a_labeled_true_or_false() {
    let de = Deserializer::from_dson(labeled(string("true"), Dson::Product(vec![])));
    assert!(matches!(de.deserialize_bool().unwrap(), Visit::Bool(true)));
    let de = Deserializer::from_dson(labeled(string("false"), integer(0)));
    assert!(matches!(de.deserialize_bool().unwrap(), Visit::Bool(false)));
    let de = Deserializer::from_dson(labeled(string("yes"), integer(0)));
    assert_eq!(message(de.deserialize_bool().unwrap_err()), "Expected bool");
    let de = Deserializer::from_dson(labeled(integer(1), integer(0)));
    assert_eq!(message(de.deserialize_bool().unwrap_err()), "Expected bool");
    let de = Deserializer::from_dson(string("true"));
    assert_eq!(message(de.deserialize_bool().unwrap_err()), "Expected bool");
}

#[test]
fn option_is_none_only_for_unit() {
    let de = Deserializer::from_dson(Dson::Product(vec![]));
    assert!(matches!(de.deserialize_option(), Visit::Absent));
    let de = Deserializer::from_dson(integer(3));
    assert!(matches!(de.deserialize_option(), Visit::Present));
    let de = Deserializer::from_dson(Dson::Product(vec![integer(3)]));
    assert!(matches!(de.deserialize_option(), Visit::Present));
}

#[test]
fn unit_struct_is_the_empty_product() {
    let de = Deserializer::from_dson(Dson::Product(vec![]));
    assert!(matches!(de.deserialize_unit_struct().unwrap(), Visit::Unit));
    let de = Deserializer::from_dson(Dson::Vector(vec![]));
    assert_eq!(message(de.deserialize_unit_struct().unwrap_err()), "Expected unit");
}

#[test]
fn map_errors() {
    let de = Deserializer::from_dson(Dson::Vector(vec![]));
    assert_eq!(message(de.deserialize_map().unwrap_err()), "Expected product");
    // The first member that is no entry decides the error.
    let de = Deserializer::from_dson(Dson::Product(vec![
        labeled(string("a"), integer(1)),
        integer(2),
        labeled(integer(3), integer(4)),
    ]));
    assert_eq!(message(de.deserialize_map().unwrap_err()), "Expected labeled");
    let de = Deserializer::from_dson(Dson::Product(vec![
        labeled(integer(3), integer(4)),
        integer(2),
    ]));
    assert_eq!(message(de.deserialize_map().unwrap_err()), "Expected string");
}

#[test]
fn map_keeps_wrappers_and_struct_takes_them_off() {
    let wrapped = || Dson::Comment {
        text: "c".into(),
        expr: Box::new(Dson::Product(vec![labeled(string("k"), integer(9))])),
    };
    let de = Deserializer::from_dson(wrapped());
    assert_eq!(message(de.deserialize_map().unwrap_err()), "Expected product");
    let mut de = Deserializer::from_dson(wrapped());
    let mut map = mapping(de.deserialize_struct().unwrap());
    assert_eq!(read_string(map.next_key().unwrap()), "k");
    assert_eq!(read_u32(map.next_value()), 9);
    assert!(map.next_key().is_none());
    let mut de = Deserializer::from_dson(integer(1));
    assert_eq!(message(de.deserialize_struct().unwrap_err()), "Expected set");
}

#[test]
fn enum_errors() {
    let de = Deserializer::from_dson(string("Unit"));
    assert_eq!(message(de.deserialize_enum().unwrap_err()), "Expected label");
    let de = Deserializer::from_dson(labeled(integer(1), integer(2)));
    assert_eq!(message(de.deserialize_enum().unwrap_err()), "Expected string");
}

#[test]
fn tuple_and_tuple_struct() {
    let de = Deserializer::from_dson(Dson::Product(vec![integer(4), integer(5)]));
    let mut values = sequence(de.deserialize_tuple().unwrap());
    assert_eq!(read_u32(values.next_element().unwrap()), 4);
    assert_eq!(read_u32(values.next_element().unwrap()), 5);
    assert!(values.next_element().is_none());
    let de = Deserializer::from_dson(Dson::Vector(vec![integer(4)]));
    assert_eq!(message(de.deserialize_tuple().unwrap_err()), "Expected product");

    let wrapped = labeled(string("l"), Dson::Product(vec![integer(6)]));
    let de = Deserializer::from_dson(labeled(string("l"), Dson::Product(vec![integer(6)])));
    assert_eq!(message(de.deserialize_tuple().unwrap_err()), "Expected product");
    let mut de = Deserializer::from_dson(wrapped);
    let mut values = sequence(de.deserialize_tuple_struct().unwrap());
    assert_eq!(read_u32(values.next_element().unwrap()), 6);
    let mut de = Deserializer::from_dson(integer(1));
    assert_eq!(message(de.deserialize_tuple_struct().unwrap_err()), "Expected set");
}

#[test]
fn variant_seed_hands_out_name_and_content() {
    let de = Deserializer::from_dson(labeled(string("V"), integer(8)));
    let (name, content) = variant(de.deserialize_enum().unwrap()).variant_seed();
    assert_eq!(read_string(name), "V");
    assert_eq!(read_u32(content), 8);
}

#[test]
fn error_message_holds_its_text() {
    assert_eq!(message(Error::message("boom")), "boom");
}
