//! Tests of the lexical layer: separators, line ends, strings, comments,
//! digits, integers, bit-vector values, identifiers and constants.

use rtlilicious::characters;
use rtlilicious::constant;
use rtlilicious::identifier;
use rtlilicious::string;
use rtlilicious::value;
use rtlilicious::Constant;
use rtlilicious::Id;

fn chars(s: &str) -> Vec<char> {
    s.chars().collect()
}

#[test]
fn test_sanity() {
    assert_eq!(1 + 1, 2);
}

#[test]
fn test_is_sep() {
    assert!(characters::is_sep(' '));
    assert!(characters::is_sep('\t'));
    assert!(!characters::is_sep('\n'));
    assert!(!characters::is_sep('a'));
}

#[test]
fn test_nonws() {
    let v = chars("ab");
    assert_eq!(characters::nonws(&v, 0), Some(('a', 1)));
    let v = chars(" a");
    assert_eq!(characters::nonws(&v, 0), None);
    let v = chars("");
    assert_eq!(characters::nonws(&v, 0), None);
}

#[test]
fn test_sep() {
    let vectors = [
        (" ", ""),
        ("\t", ""),
        (" \t", ""),
        ("\t ", ""),
        (" \t ", ""),
        ("\t\t", ""),
        ("  ", ""),
        ("\t\t ", ""),
    ];
    for (i, (input, expected)) in vectors.iter().enumerate() {
        let v = chars(input);
        let ret = characters::sep(&v, 0);
        assert!(ret.is_some(), "Test case {}", i);
        let rest = v.len() - ret.unwrap();
        assert_eq!(rest, expected.chars().count(), "Test case {}", i);
    }
}

#[test]
fn test_eol() {
    let vectors = [
        ("\n", ""),
        ("\r", ""),
        ("\r\n", ""),
        ("\n\r", ""),
        ("\n\n", ""),
        ("\r\r", ""),
        ("\n\r\n", ""),
        ("\r\n\r", ""),
    ];
    for (i, (input, expected)) in vectors.iter().enumerate() {
        let v = chars(input);
        let ret = characters::eol(&v, 0);
        assert!(ret.is_some(), "Test case {}", i);
        let rest = v.len() - ret.unwrap();
        assert_eq!(rest, expected.chars().count(), "Test case {}", i);
    }
}

#[test]
fn test_string() {
    let vectors = [
        ("\"hello\"", "hello"),
        ("\"A\"", "A"),
        ("\"1\"", "1"),
        ("\" \"", " "),
        ("\"\"", ""),
        ("\"\\\"\"", "\""),
        ("\"\\n\"", "\n"),
        ("\"\\t\"", "\t"),
        ("\"\\r\"", "\r"),
    ];
    for (i, (input, expected)) in vectors.iter().enumerate() {
        let v = chars(input);
        let ret = string::string(&v, 0).unwrap();
        assert_eq!(ret.0, *expected, "Test case {}", i);
    }
}

#[test]
fn test_comment() {
    let vectors = [
        ("#a\n", "a"),
        ("#A\n", "A"),
        ("#1\r", "1"),
        ("# \r", " "),
        ("#\n", ""),
        ("#\r", ""),
        ("#\r\n", ""),
        (
            "# Generated by Yosys 0.39 (git sha1 00338082b00, clang++ 15.0.0 -fPIC -Os)\n",
            " Generated by Yosys 0.39 (git sha1 00338082b00, clang++ 15.0.0 -fPIC -Os)",
        ),
    ];
    for (i, (input, expected)) in vectors.iter().enumerate() {
        let v = chars(input);
        let ret = string::comment(&v, 0).unwrap();
        assert_eq!(ret.0, *expected, "Test case {}", i);
    }
}

#[test]
fn test_string_escaped() {
    let vectors = [
        ("\"\\000\"", "\0"),
        ("\"\\001\"", "\x01"),
        ("\"\\010\"", "\x08"),
        ("\"\\010 \"", "\x08 "),
    ];
    for (i, (input, expected)) in vectors.iter().enumerate() {
        let v = chars(input);
        let ret = string::string(&v, 0).unwrap();
        assert_eq!(ret.0, *expected, "Test case {}", i);
    }
}

#[test]
fn test_decimal_digit() {
    let inputs = [
        ("0", '0'),
        ("1", '1'),
        ("2", '2'),
        ("3", '3'),
        ("4", '4'),
        ("5", '5'),
        ("6", '6'),
        ("7", '7'),
        ("8", '8'),
        ("9", '9'),
    ];
    for (i, (input, expected)) in inputs.iter().enumerate() {
        let v = chars(input);
        let ret = value::decimal_digit(&v, 0).unwrap();
        assert_eq!(ret.0, *expected, "Test case {}", i);
    }
    let v = chars("a9");
    assert!(value::decimal_digit(&v, 0).is_none());
}

#[test]
fn test_binary_digit() {
    let inputs = [
        ("0", '0'),
        ("1", '1'),
        ("x", 'x'),
        ("X", 'X'),
        ("z", 'z'),
        ("Z", 'Z'),
        ("m", 'm'),
        ("M", 'M'),
        ("-", '-'),
    ];
    for (i, (input, expected)) in inputs.iter().enumerate() {
        let v = chars(input);
        let ret = value::binary_digit(&v, 0).unwrap();
        assert_eq!(ret.0, *expected, "Test case {}", i);
    }
}

#[test]
fn test_integer() {
    let inputs = [
        ("0", 0),
        ("1", 1),
        ("2", 2),
        ("3", 3),
        ("4", 4),
        ("5", 5),
        ("6", 6),
        ("7", 7),
        ("8", 8),
        ("9", 9),
        ("-0", 0),
        ("-1", -1),
        ("-2", -2),
        ("-3", -3),
        ("-4", -4),
        ("-5", -5),
        ("-6", -6),
        ("-7", -7),
        ("-8", -8),
        ("-9", -9),
        ("00", 0),
        ("01", 1),
        ("02", 2),
        ("03", 3),
        ("04", 4),
        ("05", 5),
        ("06", 6),
        ("07", 7),
        ("08", 8),
        ("09", 9),
        ("-00", 0),
        ("-01", -1),
        ("-02", -2),
        ("-03", -3),
        ("-04", -4),
        ("-05", -5),
        ("1234567890", 1234567890),
    ];
    for (i, (input, expected)) in inputs.iter().enumerate() {
        let v = chars(input);
        let ret = value::integer(&v, 0).unwrap();
        assert_eq!(ret.0, *expected, "Test case {}", i);
    }
}

#[test]
fn test_value() {
    let vectors = [
        ("1'0", vec!['0']),
        ("1'1", vec!['1']),
        ("1'x", vec!['x']),
        ("1'z", vec!['z']),
        ("1'm", vec!['m']),
        ("1'-", vec!['-']),
        ("2'01", vec!['1', '0']),
        ("3'101", vec!['1', '0', '1']),
        ("4'010x", vec!['x', '0', '1', '0']),
        ("0'x", vec![]),
    ];
    for (i, (input, expected)) in vectors.iter().enumerate() {
        let v = chars(input);
        let ret = value::value(&v, 0).unwrap();
        assert_eq!(ret.0, *expected, "Test case {}", i);
    }
}

#[test]
fn test_public_id() {
    let vectors = [
        ("\\a", Id::Public("a".into())),
        ("\\A", Id::Public("A".into())),
        ("\\1", Id::Public("1".into())),
    ];
    for (i, (input, expected)) in vectors.iter().enumerate() {
        let v = chars(input);
        let ret = identifier::public_id(&v, 0)
            .unwrap_or_else(|| panic!("Failed to parse public_id: {:?}", input));
        assert_eq!(ret.0, *expected, "Test case {}", i);
    }
}

#[test]
fn test_autogen_id() {
    let vectors = [
        ("$a", Id::Autogen("a".into())),
        ("$A", Id::Autogen("A".into())),
        ("$1", Id::Autogen("1".into())),
    ];
    for (i, (input, expected)) in vectors.iter().enumerate() {
        let v = chars(input);
        let ret = identifier::autogen_id(&v, 0)
            .unwrap_or_else(|| panic!("Failed to parse autogen_id: {:?}", input));
        assert_eq!(ret.0, *expected, "Test case {}", i);
    }
}

#[test]
fn test_id() {
    let vectors = [
        ("\\a", Id::Public("a".into())),
        ("$a", Id::Autogen("a".into())),
        ("\\A", Id::Public("A".into())),
        ("$A", Id::Autogen("A".into())),
        ("\\1", Id::Public("1".into())),
        ("$1", Id::Autogen("1".into())),
    ];
    for (i, (input, expected)) in vectors.iter().enumerate() {
        let v = chars(input);
        let ret = identifier::id(&v, 0).unwrap();
        assert_eq!(ret.0, *expected, "Test case {}", i);
    }

    let a = Id::Public("a".into());
    let b = Id::Autogen("a".into());
    assert_ne!(a, b);
    assert_eq!(a.inner(), b.inner());
    assert_eq!(a.erease(), b.erease());
}

#[test]
fn test_constant() {
    let vectors = [
        ("-129", Constant::Integer(-129)),
        ("\"hello world\"", Constant::String("hello world".to_string())),
        ("4'x", Constant::Value(vec!['x', 'x', 'x', 'x'])),
    ];
    for (input, expected) in vectors.iter() {
        let v = chars(input);
        let ret = constant::constant(&v, 0)
            .unwrap_or_else(|| panic!("Failed to parse input: {:?}", input));
        assert_eq!(ret.0, *expected);
    }
}
