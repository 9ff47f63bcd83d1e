//! End-to-end tests of `parse` and of the behaviors the library promises:
//! decoding rules for literals and strings, order preservation, nesting,
//! keyed overwriting, and error locations.

use rtlilicious::parse;
use rtlilicious::sigspec;
use rtlilicious::string;
use rtlilicious::value;
use rtlilicious::Constant;
use rtlilicious::SigSpec;

fn chars(s: &str) -> Vec<char> {
    s.chars().collect()
}

#[test]
fn test_accessors_and_default_wire() {
    let src = "attribute \\top 1\nmodule \\m\nwire $a\nend\n";
    let design = parse(src).unwrap();
    assert_eq!(design.modules().len(), 1);
    assert_eq!(design.autoidx(), &None);
    let m = design.modules().get("m").unwrap();
    assert!(m.attributes().contains_key("top"));
    assert_eq!(m.wires().len(), 1);
    assert_eq!(m.cells().len(), 0);
    assert_eq!(m.processes().len(), 0);
    assert_eq!(m.connections().len(), 0);
    assert_eq!(m.wires().get("a"), Some(&rtlilicious::Wire::default()));
}

#[test]
fn test_parse_single_wire_module() {
    let src = "module \\m\nwire $a\nend\n";
    let design = parse(src).unwrap();
    assert_eq!(design.modules.len(), 1);
    let m = design.modules.get("m").unwrap();
    assert_eq!(m.wires.len(), 1);
    let w = m.wires.get("a").unwrap();
    assert_eq!(w.width, 1);
    assert_eq!(w.offset, 0);
    assert!(!w.input && !w.output && !w.inout && !w.upto && !w.signed);
    assert_eq!(design.autoidx, None);
}

#[test]
fn test_parse_cell_parameters_and_connection() {
    let src = "module \\m\ncell $add $x\n  parameter \\A_SIGNED 0\n  parameter \\A_WIDTH 8\n  parameter \\B_SIGNED 0\n  parameter \\B_WIDTH 8\n  parameter \\Y_WIDTH 9\n  connect \\A \\a\nend\nend\n";
    let design = parse(src).unwrap();
    let m = design.modules.get("m").unwrap();
    assert_eq!(m.cells.len(), 1);
    let c = m.cells.get("x").unwrap();
    assert_eq!(c.cell_type, "add");
    assert_eq!(c.parameters.len(), 5);
    assert_eq!(c.connections.len(), 1);
    assert_eq!(
        c.connections.get("A"),
        Some(&SigSpec::WireId("a".to_string()))
    );
}

#[test]
fn test_parse_autoidx_and_leading_comment() {
    let src = "# made by a synthesis run\nautoidx 42\nmodule \\m\nend\n";
    let design = parse(src).unwrap();
    assert_eq!(design.autoidx, Some(42));
    assert_eq!(design.modules.len(), 1);
}

#[test]
fn test_parse_duplicate_keys_overwrite() {
    let src = "module \\m\nwire width 5 \\a\nwire width 7 \\a\nend\n";
    let design = parse(src).unwrap();
    let m = design.modules.get("m").unwrap();
    assert_eq!(m.wires.len(), 1);
    assert_eq!(m.wires.get("a").unwrap().width, 7);
}

#[test]
fn test_parse_connection_order_kept() {
    let src = "module \\m\nconnect \\b \\a\nconnect \\c \\b\nconnect \\a \\c\nend\n";
    let design = parse(src).unwrap();
    let m = design.modules.get("m").unwrap();
    assert_eq!(m.connections.len(), 3);
    assert_eq!(m.connections[0].0, SigSpec::WireId("b".to_string()));
    assert_eq!(m.connections[1].0, SigSpec::WireId("c".to_string()));
    assert_eq!(m.connections[2].0, SigSpec::WireId("a".to_string()));
}

#[test]
fn test_parse_error_location_after_first_module() {
    let src = "module \\m\nwire $a\nend\njunk\n";
    let err = parse(src).unwrap_err();
    assert_eq!(err.location_line(), 4);
    assert_eq!(err.location_offset(), 22);
}

#[test]
fn test_parse_error_unterminated_string() {
    let src = "module \\m\nattribute \\a \"oops\nend\n";
    let err = parse(src).unwrap_err();
    assert_eq!(err.line, 1);
    assert_eq!(err.offset, 0);
}

#[test]
fn test_parse_error_width_mismatch() {
    let src = "module \\m\nconnect \\a 3'01\nend\n";
    let err = parse(src).unwrap_err();
    assert_eq!(err.line, 1);
    assert_eq!(err.offset, 0);
}

#[test]
fn test_value_width_mismatch_fails() {
    let v = chars("3'01");
    assert!(value::value(&v, 0).is_none());
    let v = chars("2'110");
    assert!(value::value(&v, 0).is_none());
}

#[test]
fn test_value_zero_width() {
    let v = chars("0'x");
    let ret = value::value(&v, 0).unwrap();
    assert_eq!(ret.0, Vec::<char>::new());
}

#[test]
fn test_value_single_bit_replication() {
    let v = chars("8'x");
    let ret = value::value(&v, 0).unwrap();
    assert_eq!(ret.0, vec!['x'; 8]);
    let v = chars("3'1");
    let ret = value::value(&v, 0).unwrap();
    assert_eq!(ret.0, vec!['1', '1', '1']);
}

#[test]
fn test_integer_overflow_fails() {
    let v = chars("2147483647");
    assert_eq!(value::integer(&v, 0).unwrap().0, 2147483647);
    let v = chars("2147483648");
    assert!(value::integer(&v, 0).is_none());
    let v = chars("-2147483648");
    assert!(value::integer(&v, 0).is_none());
}

#[test]
fn test_string_octal_escape() {
    let v = chars("\"\\101\"");
    let ret = string::string(&v, 0).unwrap();
    assert_eq!(ret.0, "A");
}

#[test]
fn test_string_escaped_whitespace_elided() {
    let v = chars("\"a\\ \t \nb\"");
    let ret = string::string(&v, 0).unwrap();
    assert_eq!(ret.0, "ab");
}

#[test]
fn test_string_unterminated_fails() {
    let v = chars("\"abc");
    assert!(string::string(&v, 0).is_none());
    let v = chars("\"abc\\\"");
    assert!(string::string(&v, 0).is_none());
}

#[test]
fn test_string_octal_overflow_fails() {
    let v = chars("\"\\777\"");
    assert!(string::string(&v, 0).is_none());
}

#[test]
fn test_concat_order_kept() {
    let v = chars("{ \\A [12:5] \\A [13] }");
    let ret = sigspec::sigspec(&v, 0).unwrap();
    match ret.0 {
        SigSpec::Concat(items) => {
            assert_eq!(items.len(), 2);
            assert_eq!(
                items[0],
                SigSpec::Range(Box::new(SigSpec::WireId("A".to_string())), 12, Some(5))
            );
            assert_eq!(
                items[1],
                SigSpec::Range(Box::new(SigSpec::WireId("A".to_string())), 13, None)
            );
        },
        other => panic!("expected a concatenation, got {:?}", other),
    }
}

#[test]
fn test_parse_nested_switch_tree() {
    let src = "module \\m\nprocess $p\n  attribute \\level 1\n  switch \\s0\n    case 1'1\n      attribute \\level 2\n      switch \\s1\n        case 1'0\n          assign \\x \\y\n        case \n      end\n  end\nend\nend\n";
    let design = parse(src).unwrap();
    let m = design.modules.get("m").unwrap();
    let p = m.processes.get("p").unwrap();
    assert_eq!(p.switches.len(), 1);
    let outer = &p.switches[0];
    assert_eq!(
        outer.attributes.get("level"),
        Some(&Constant::Integer(1))
    );
    assert_eq!(outer.cases.len(), 1);
    let case = &outer.cases[0];
    assert_eq!(case.case_bodies.len(), 1);
    match &case.case_bodies[0] {
        rtlilicious::CaseBody::Switch(inner) => {
            assert_eq!(
                inner.attributes.get("level"),
                Some(&Constant::Integer(2))
            );
            assert_eq!(inner.cases.len(), 2);
            assert_eq!(inner.cases[0].case_bodies.len(), 1);
            match &inner.cases[0].case_bodies[0] {
                rtlilicious::CaseBody::Assign(dst, src) => {
                    assert_eq!(*dst, SigSpec::WireId("x".to_string()));
                    assert_eq!(*src, SigSpec::WireId("y".to_string()));
                },
                other => panic!("expected an assignment, got {:?}", other),
            }
        },
        other => panic!("expected a nested switch, got {:?}", other),
    }
}

#[test]
fn test_parse_memory_and_process_sync() {
    let src = "module \\m\nmemory width 8 size 256 \\ram\nprocess $p\n  sync posedge \\clk\n    update \\q \\d\n    memwr \\ram \\addr \\data \\en 0'x\nend\nend\n";
    let design = parse(src).unwrap();
    let m = design.modules.get("m").unwrap();
    assert_eq!(m.memories.get("ram").unwrap().width, 8);
    assert_eq!(m.memories.get("ram").unwrap().size, 256);
    assert_eq!(m.memories.get("ram").unwrap().offset, 0);
    let p = m.processes.get("p").unwrap();
    assert_eq!(p.syncs.len(), 1);
    assert_eq!(p.syncs[0].updates.len(), 1);
    assert_eq!(p.syncs[0].memwrs.len(), 1);
    assert!(p.syncs[0].memwrs.contains_key("ram"));
}

#[test]
fn test_dict_access() {
    let src = "module \\m\nparameter \\p 3\nparameter \\q\nend\n";
    let design = parse(src).unwrap();
    let m = design.modules.get("m").unwrap();
    assert_eq!(m.parameters.len(), 2);
    assert_eq!(m.parameters.get("p"), Some(&Some(Constant::Integer(3))));
    assert_eq!(m.parameters.get("q"), Some(&None));
    assert_eq!(m.parameters.get("r"), None);
    assert!(m.parameters.contains_key("p"));
    assert!(!m.parameters.contains_key("r"));
    assert_eq!(m.parameters.key_at(0), "p");
    assert_eq!(m.parameters.key_at(1), "q");
    assert_eq!(m.parameters.value_at(0), &Some(Constant::Integer(3)));
}

#[test]
fn test_parse_comment_between_statements() {
    let src = "module \\m\nwire $a\n# a note on the next wire\nwire $b\nend\n";
    let design = parse(src).unwrap();
    let m = design.modules.get("m").unwrap();
    assert_eq!(m.wires.len(), 2);
}

#[test]
fn test_parse_crlf_line_endings() {
    let src = "module \\m\r\nwire $a\r\nend\r\n";
    let design = parse(src).unwrap();
    assert_eq!(design.modules.len(), 1);
    assert_eq!(design.modules.get("m").unwrap().wires.len(), 1);
}

#[test]
fn test_parse_multibyte_error_offset() {
    let src = "module \\m\nwire $\u{e9}\nend\nx\n";
    let err = parse(src).unwrap_err();
    assert_eq!(err.line, 4);
    assert_eq!(err.offset, 23);
}
