//! Tests of the flat statement layer: attributes, wires, memories, cells,
//! connections and parameters.

use rtlilicious::attribute;
use rtlilicious::cell;
use rtlilicious::connect;
use rtlilicious::memory;
use rtlilicious::memory::MemoryOption;
use rtlilicious::module;
use rtlilicious::wire;
use rtlilicious::wire::WireOption;
use rtlilicious::Cell;
use rtlilicious::Constant;
use rtlilicious::Dict;
use rtlilicious::Memory;
use rtlilicious::SigSpec;
use rtlilicious::Wire;

fn chars(s: &str) -> Vec<char> {
    s.chars().collect()
}

#[test]
fn test_attr_stmt() {
    let vectors = [
        (
            "attribute \\dynports 1\n",
            ("dynports".to_string(), Constant::Integer(1)),
        ),
        ("attribute \\top 1\n", ("top".to_string(), Constant::Integer(1))),
        (
            "attribute \\src \"serv_top.v:3.1-658.10\"\n",
            (
                "src".to_string(),
                Constant::String("serv_top.v:3.1-658.10".to_string()),
            ),
        ),
    ];
    for (i, (input, expected)) in vectors.iter().enumerate() {
        let v = chars(input);
        let ret = attribute::attr_stmt(&v, 0).unwrap();
        assert_eq!(ret.0, *expected, "Test case {}", i);
    }
}

fn default_wire() -> Wire {
    Wire {
        width: 1,
        offset: 0,
        input: false,
        output: false,
        inout: false,
        upto: false,
        signed: false,
        attributes: Dict::new(),
    }
}

#[test]
fn test_wire_stmt() {
    let vectors = [
        ("wire $a\n", ("a".to_string(), default_wire())),
        ("wire width 1 $a\n", ("a".to_string(), Wire { width: 1, ..default_wire() })),
        ("wire offset 1 $a\n", ("a".to_string(), Wire { offset: 1, ..default_wire() })),
        ("wire input 10 $a\n", ("a".to_string(), Wire { input: true, ..default_wire() })),
        ("wire output 5 $a\n", ("a".to_string(), Wire { output: true, ..default_wire() })),
        ("wire inout 5 $a\n", ("a".to_string(), Wire { inout: true, ..default_wire() })),
        ("wire upto $a\n", ("a".to_string(), Wire { upto: true, ..default_wire() })),
    ];
    for (input, expected) in vectors {
        let v = chars(input);
        let ret = wire::wire_stmt(&v, 0);
        assert!(ret.is_some(), "failed: {}", input);
        assert_eq!(ret.unwrap().0, expected, "failed: {}", input);
    }
}

#[test]
fn test_wire_option() {
    let vectors = [
        ("width 1", WireOption::Width(1)),
        ("offset 0", WireOption::Offset(0)),
        ("input 1", WireOption::Input),
        ("output 1", WireOption::Output),
        ("inout 1", WireOption::Inout),
        ("upto", WireOption::Upto),
        ("signed", WireOption::Signed),
    ];
    for (input, expected) in vectors {
        let v = chars(input);
        let ret = wire::wire_option(&v, 0).unwrap();
        assert_eq!(ret.0, expected);
    }
}

#[test]
fn test_memory() {
    let input = "memory width 32 size 32 offset 32 \\mem\n";
    let expected = (
        "mem".to_string(),
        Memory { width: 32, size: 32, offset: 32, attributes: Dict::new() },
    );
    let v = chars(input);
    let ret = memory::memory(&v, 0).unwrap();
    assert_eq!(ret.0, expected);
}

#[test]
fn test_memory_option() {
    let vectors = [
        ("width 32", MemoryOption::Width(32)),
        ("size 32", MemoryOption::Size(32)),
        ("offset 32", MemoryOption::Offset(32)),
    ];
    for (input, expected) in vectors {
        let v = chars(input);
        let ret = memory::memory_option(&v, 0).unwrap();
        assert_eq!(ret.0, expected);
    }
}

#[test]
fn test_memory_stmt() {
    let input = "memory width 32 size 32 offset 32 \\mem\n";
    let expected = (
        "mem".to_string(),
        vec![
            MemoryOption::Width(32),
            MemoryOption::Size(32),
            MemoryOption::Offset(32),
        ],
    );
    let v = chars(input);
    let ret = memory::memory_stmt(&v, 0).unwrap();
    assert_eq!(ret.0, expected);
}

#[test]
fn test_cell_stmt() {
    let v = chars("cell $mux $flatten\\immdec.$ternary$serv_immdec.v:52$334\n");
    let ret = cell::cell_stmt(&v, 0).unwrap();
    assert_eq!(
        ret.0,
        (
            "mux".to_string(),
            "flatten\\immdec.$ternary$serv_immdec.v:52$334".to_string()
        )
    );
}

#[test]
fn test_cell_body_stmt() {
    let vectors = [
        (
            "parameter \\WIDTH 6\n",
            ("WIDTH".to_string(), Constant::Integer(6)),
        ),
        (
            "parameter signed \\SOME_SIGNED 0\n",
            ("SOME_SIGNED".to_string(), Constant::Integer(0)),
        ),
    ];
    for (i, (input, expected)) in vectors.iter().enumerate() {
        let v = chars(input);
        let ret = cell::cell_body_stmt_param(&v, 0).unwrap();
        assert_eq!(ret.0, *expected, "Test case {}", i);
    }
}

#[test]
fn test_cell_end_stmt() {
    let v = chars("end\n");
    let ret = cell::cell_end_stmt(&v, 0);
    assert_eq!(ret, Some(v.len()));
}

#[test]
fn test_cell_connect_stmt() {
    let vectors = vec![
        (
            "connect \\a \\b\n",
            ("a".to_string(), SigSpec::WireId("b".to_string())),
        ),
        (
            "connect \\B { \\immdec.i_wb_rdt [12:5] \\immdec.i_wb_rdt [13] }\n",
            (
                "B".to_string(),
                SigSpec::Concat(vec![
                    SigSpec::Range(
                        Box::new(SigSpec::WireId("immdec.i_wb_rdt".to_string())),
                        12,
                        Some(5),
                    ),
                    SigSpec::Range(
                        Box::new(SigSpec::WireId("immdec.i_wb_rdt".to_string())),
                        13,
                        None,
                    ),
                ]),
            ),
        ),
        (
            "connect \\A { $flatten\\immdec.$ternary$serv_immdec.v:52$333_Y \\immdec.imm30_25 [5:1] }\n",
            (
                "A".to_string(),
                SigSpec::Concat(vec![
                    SigSpec::WireId(
                        "flatten\\immdec.$ternary$serv_immdec.v:52$333_Y".to_string(),
                    ),
                    SigSpec::Range(
                        Box::new(SigSpec::WireId("immdec.imm30_25".to_string())),
                        5,
                        Some(1),
                    ),
                ]),
            ),
        ),
    ];
    for (i, (input, expected)) in vectors.iter().enumerate() {
        let v = chars(input);
        let ret = cell::cell_connect_stmt(&v, 0).unwrap();
        assert_eq!(ret.0, *expected, "Test case {}", i);
    }
}

#[test]
fn test_cell() {
    let input = "cell $add $flatten\\alu.$add$serv_alu.v:39$15\n    parameter \\A_SIGNED 0\n    parameter \\A_WIDTH 1\n    parameter \\B_SIGNED 0\n    parameter \\B_WIDTH 1\n    parameter \\Y_WIDTH 2\n    connect \\A \\alu.i_rs1\nend\n";
    let mut parameters: Dict<Constant> = Dict::new();
    parameters.insert("A_SIGNED".to_string(), Constant::Integer(0));
    parameters.insert("A_WIDTH".to_string(), Constant::Integer(1));
    parameters.insert("B_SIGNED".to_string(), Constant::Integer(0));
    parameters.insert("B_WIDTH".to_string(), Constant::Integer(1));
    parameters.insert("Y_WIDTH".to_string(), Constant::Integer(2));
    let mut connections: Dict<SigSpec> = Dict::new();
    connections.insert("A".to_string(), SigSpec::WireId("alu.i_rs1".to_string()));
    let expected = (
        "flatten\\alu.$add$serv_alu.v:39$15".to_string(),
        Cell { cell_type: "add".to_string(), parameters, connections },
    );
    let v = chars(input);
    assert_eq!(cell::cell(&v, 0).unwrap().0, expected);
}

#[test]
fn test_connect_mystery() {
    let input =
        "connect \\decode.co_immdec_ctrl [0] $flatten\\decode.$eq$serv_decode.v:213$842_Y\n";
    let v = chars(input);
    assert_eq!(
        connect::conn_stmt(&v, 0).unwrap().0,
        (
            SigSpec::Range(
                Box::new(SigSpec::WireId("decode.co_immdec_ctrl".to_string())),
                0,
                None
            ),
            SigSpec::WireId("flatten\\decode.$eq$serv_decode.v:213$842_Y".to_string())
        )
    );
}

#[test]
fn test_param_stmt() {
    let vectors = [
        (
            "parameter \\dynports 1\n",
            ("dynports".to_string(), Some(Constant::Integer(1))),
        ),
        ("parameter \\top 1\n", ("top".to_string(), Some(Constant::Integer(1)))),
        (
            "parameter \\src \"serv_top.v:3.1-658.10\"\n",
            (
                "src".to_string(),
                Some(Constant::String("serv_top.v:3.1-658.10".to_string())),
            ),
        ),
    ];
    for (input, expected) in vectors.iter() {
        let v = chars(input);
        let ret = module::param_stmt(&v, 0).unwrap();
        assert_eq!(ret.0, *expected);
    }
}
