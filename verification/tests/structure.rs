//! Tests of the recursive grammar: signal specifications, processes,
//! switches, cases, syncs, memory writes and modules.

use rtlilicious::module;
use rtlilicious::process;
use rtlilicious::sigspec;
use rtlilicious::switch;
use rtlilicious::sync;
use rtlilicious::Case;
use rtlilicious::CaseBody;
use rtlilicious::Constant;
use rtlilicious::Dict;
use rtlilicious::Memwr;
use rtlilicious::Process;
use rtlilicious::SigSpec;
use rtlilicious::SignalSync;
use rtlilicious::Switch;
use rtlilicious::Sync;
use rtlilicious::SyncOn;

fn chars(s: &str) -> Vec<char> {
    s.chars().collect()
}

#[test]
fn test_sigspec() {
    let vectors = vec![
        (
            "5'110xz",
            SigSpec::Constant(Constant::Value(vec!['z', 'x', '0', '1', '1'])),
        ),
        ("\\A", SigSpec::WireId("A".to_string())),
        (
            "\\A  [0]",
            SigSpec::Range(Box::new(SigSpec::WireId("A".to_string())), 0, None),
        ),
        (
            "\\immdec.signbit",
            SigSpec::WireId("immdec.signbit".to_string()),
        ),
        (
            "{ \\immdec.i_wb_rdt [12:5] \\immdec.i_wb_rdt [13] }",
            SigSpec::Concat(vec![
                SigSpec::Range(
                    Box::new(SigSpec::WireId("immdec.i_wb_rdt".to_string())),
                    12,
                    Some(5),
                ),
                SigSpec::Range(
                    Box::new(SigSpec::WireId("immdec.i_wb_rdt".to_string())),
                    13,
                    None,
                ),
            ]),
        ),
    ];
    for (input, expected) in vectors {
        let v = chars(input);
        let ret = sigspec::sigspec(&v, 0).unwrap();
        assert_eq!(ret.0, expected);
    }
}

#[test]
fn test_sigspec_range() {
    let v = chars("\\immdec.imm19_12_20 [8:1]");
    assert_eq!(
        sigspec::sigspec_range(&v, 0).unwrap().0,
        (
            SigSpec::WireId("immdec.imm19_12_20".to_string()),
            8,
            Some(1)
        )
    );
}

#[test]
fn test_sigspec_concat() {
    let v = chars(
        "{ $flatten\\immdec.$ternary$serv_immdec.v:47$326_Y \\immdec.imm19_12_20 [8:1] }",
    );
    assert_eq!(
        sigspec::sigspec_concat(&v, 0).unwrap().0,
        SigSpec::Concat(vec![
            SigSpec::WireId("flatten\\immdec.$ternary$serv_immdec.v:47$326_Y".to_string()),
            SigSpec::Range(
                Box::new(SigSpec::WireId("immdec.imm19_12_20".to_string())),
                8,
                Some(1)
            )
        ])
    );
}

#[test]
fn test_process() {
    let input = "process $flatten\\ctrl.$proc$serv_ctrl.v:0$702\n    switch 1'0\n        case \n    end\n    sync always\n    sync init\nend\n";
    let v = chars(input);
    let (found, _) = process::process(&v, 0).unwrap();
    let sync_always = sync::sync(&chars("sync always\n"), 0).unwrap().0;
    let sync_init = sync::sync(&chars("sync init\n"), 0).unwrap().0;
    assert_eq!(
        found,
        (
            "flatten\\ctrl.$proc$serv_ctrl.v:0$702".to_string(),
            Process {
                attributes: Dict::new(),
                assignments: vec![],
                switches: vec![Switch {
                    attributes: Dict::new(),
                    switch_on_sigspec: SigSpec::Constant(Constant::Value(vec!['0'])),
                    cases: vec![Case {
                        attributes: Dict::new(),
                        compare_against: None,
                        case_bodies: vec![],
                    }],
                }],
                syncs: vec![sync_always, sync_init],
            }
        )
    );
}

#[test]
fn test_process_multiple_switch_in_process() {
    let input = "attribute \\src \"serv_bufreg.v:35.4-44.7\"\nprocess $flatten\\bufreg.$proc$serv_bufreg.v:35$710\n  assign { } { }\n  assign $flatten\\bufreg.$0\\data[29:0] \\bufreg.data\n  assign $flatten\\bufreg.$0\\lsb[1:0] \\bufreg.lsb\n  assign $flatten\\bufreg.$0\\c_r[0:0] $flatten\\bufreg.$and$serv_bufreg.v:37$711_Y\n  attribute \\src \"serv_bufreg.v:39.7-40.62\"\n  switch \\bufreg.i_en\n    case 1'1\n      assign $flatten\\bufreg.$0\\data[29:0] { $flatten\\bufreg.$ternary$serv_bufreg.v:40$713_Y \\bufreg.data [29:1] }\n    case \n  end\n  attribute \\src \"serv_bufreg.v:42.7-43.39\"\n  switch $flatten\\bufreg.$ternary$serv_bufreg.v:42$715_Y\n    case 1'1\n      assign $flatten\\bufreg.$0\\lsb[1:0] { $flatten\\bufreg.$ternary$serv_bufreg.v:43$716_Y \\bufreg.lsb [1] }\n    case \n  end\n  sync posedge \\bufreg.i_clk\n    update \\bufreg.c_r $flatten\\bufreg.$0\\c_r[0:0]\n    update \\bufreg.data $flatten\\bufreg.$0\\data[29:0]\n    update \\bufreg.lsb $flatten\\bufreg.$0\\lsb[1:0]\nend\n";
    let v = chars(input);
    let (found, _) = process::process(&v, 0).unwrap();
    assert_eq!(found.0, "flatten\\bufreg.$proc$serv_bufreg.v:35$710");
    assert_eq!(found.1.attributes.len(), 1);
}

#[test]
fn test_proc_stmt() {
    let vectors = [
        ("process \\dynports\n", "dynports"),
        ("process \\top\n", "top"),
        ("process \\src\n", "src"),
    ];
    for (input, expected) in vectors {
        let v = chars(input);
        let ret = process::process_stmt(&v, 0).unwrap();
        assert_eq!(ret.0, expected);
    }
}

#[test]
fn test_proc_end_stmt() {
    let v = chars("end\n");
    assert_eq!(process::process_end_stmt(&v, 0), Some(v.len()));
}

#[test]
fn test_assign_stmt() {
    let input =
        "assign $flatten\\bufreg2.$0\\dat[31:0] $flatten\\bufreg2.$ternary$serv_bufreg2.v:62$80_Y\n";
    let v = chars(input);
    let ret = process::assign_stmt(&v, 0).unwrap();
    assert_eq!(
        ret.0,
        (
            SigSpec::WireId("flatten\\bufreg2.$0\\dat[31:0]".to_string()),
            SigSpec::WireId("flatten\\bufreg2.$ternary$serv_bufreg2.v:62$80_Y".to_string()),
        )
    );
}

#[test]
fn test_switch() {
    let input = "attribute \\src \"serv_state.v:179.7-186.10\"\nswitch 1'0\n  case \n    attribute \\src \"serv_state.v:183.16-186.10\"\n    switch 1'1\n      case 1'1\n        assign $flatten\\state.$0\\o_cnt[2:0] $flatten\\state.$add$serv_state.v:184$936_Y\n        assign $flatten\\state.$0\\cnt_r[3:0] { \\state.cnt_r [2:0] $flatten\\state.$or$serv_state.v:185$941_Y }\n      case \n    end\nend\n";
    let v = chars(input);
    let mut outer_attrs: Dict<Constant> = Dict::new();
    outer_attrs.insert(
        "src".to_string(),
        Constant::String("serv_state.v:179.7-186.10".to_string()),
    );
    let mut inner_attrs: Dict<Constant> = Dict::new();
    inner_attrs.insert(
        "src".to_string(),
        Constant::String("serv_state.v:183.16-186.10".to_string()),
    );
    assert_eq!(
        switch::switch(&v, 0).unwrap().0,
        Switch {
            attributes: outer_attrs,
            switch_on_sigspec: SigSpec::Constant(Constant::Value(vec!['0'])),
            cases: vec![Case {
                attributes: Dict::new(),
                compare_against: None,
                case_bodies: vec![CaseBody::Switch(Switch {
                    attributes: inner_attrs,
                    switch_on_sigspec: SigSpec::Constant(Constant::Value(vec!['1'])),
                    cases: vec![
                        Case {
                            attributes: Dict::new(),
                            compare_against: Some(vec![SigSpec::Constant(Constant::Value(
                                vec!['1']
                            ))]),
                            case_bodies: vec![
                                CaseBody::Assign(
                                    SigSpec::WireId("flatten\\state.$0\\o_cnt[2:0]".to_string()),
                                    SigSpec::WireId(
                                        "flatten\\state.$add$serv_state.v:184$936_Y".to_string()
                                    ),
                                ),
                                CaseBody::Assign(
                                    SigSpec::WireId("flatten\\state.$0\\cnt_r[3:0]".to_string()),
                                    SigSpec::Concat(vec![
                                        SigSpec::Range(
                                            Box::new(SigSpec::WireId("state.cnt_r".to_string())),
                                            2,
                                            Some(0)
                                        ),
                                        SigSpec::WireId(
                                            "flatten\\state.$or$serv_state.v:185$941_Y"
                                                .to_string()
                                        )
                                    ]),
                                ),
                            ],
                        },
                        Case {
                            attributes: Dict::new(),
                            compare_against: None,
                            case_bodies: vec![],
                        },
                    ],
                })],
            }],
        }
    );
}

#[test]
fn test_switch_stmt() {
    let v = chars("switch 1'1\n");
    let ret = switch::switch_stmt(&v, 0).unwrap();
    assert_eq!(
        ret.0,
        (
            Dict::new(),
            SigSpec::Constant(Constant::Value(vec!['1'])),
        )
    );
}

#[test]
fn test_case_stmt() {
    let vectors = [
        ("case \n", None),
        (
            "case 1'1\n",
            Some(vec![SigSpec::Constant(Constant::Value(vec!['1']))]),
        ),
        (
            "case 1'1 , 1'0\n",
            Some(vec![
                SigSpec::Constant(Constant::Value(vec!['1'])),
                SigSpec::Constant(Constant::Value(vec!['0'])),
            ]),
        ),
    ];
    for (input, expected) in vectors.iter() {
        let v = chars(input);
        let ret = switch::case_stmt(&v, 0)
            .unwrap_or_else(|| panic!("failed: {:?}", input));
        assert_eq!(ret.0, *expected);
    }
}

#[test]
fn test_compare() {
    let vectors = [
        ("1'1", vec![SigSpec::Constant(Constant::Value(vec!['1']))]),
        (
            "1'1 , 1'0",
            vec![
                SigSpec::Constant(Constant::Value(vec!['1'])),
                SigSpec::Constant(Constant::Value(vec!['0'])),
            ],
        ),
    ];
    for (input, expected) in vectors.iter() {
        let v = chars(input);
        let ret = switch::compare(&v, 0).unwrap();
        assert_eq!(ret.0, *expected);
    }
}

#[test]
fn test_switch_end_stmt() {
    let v = chars("end\n");
    assert_eq!(switch::switch_end_stmt(&v, 0), Some(v.len()));
}

#[test]
fn test_sync() {
    let input = "sync global\nupdate $a $b\nupdate $c $d\n";
    let expected = Sync {
        sync_event: SyncOn::Global,
        updates: vec![
            (
                SigSpec::WireId("a".to_string()),
                SigSpec::WireId("b".to_string()),
            ),
            (
                SigSpec::WireId("c".to_string()),
                SigSpec::WireId("d".to_string()),
            ),
        ],
        memwrs: Dict::new(),
    };
    let v = chars(input);
    let ret = sync::sync(&v, 0).unwrap();
    assert_eq!(ret.0, expected);
}

#[test]
fn test_sync_stmt() {
    let vectors = [
        ("sync global\n", SyncOn::Global),
        ("sync init\n", SyncOn::Init),
        ("sync always\n", SyncOn::Always),
        (
            "sync low \\EVENT\n",
            SyncOn::Signal(SignalSync::Low, SigSpec::WireId("EVENT".to_string())),
        ),
    ];
    for (input, expected) in vectors.iter() {
        let v = chars(input);
        let ret = sync::sync_stmt(&v, 0).unwrap();
        assert_eq!(ret.0, *expected);
    }
}

#[test]
fn test_sync_type() {
    let vectors = [
        ("low", SignalSync::Low),
        ("high", SignalSync::High),
        ("posedge", SignalSync::Posedge),
        ("negedge", SignalSync::Negedge),
        ("edge", SignalSync::Edge),
    ];
    for (input, expected) in vectors.iter() {
        let v = chars(input);
        let ret = sync::sync_type(&v, 0).unwrap();
        assert_eq!(ret.0, *expected);
    }
}

#[test]
fn test_update_stmt() {
    let v = chars("update \\DEST \\SRC\n");
    let ret = sync::update_stmt(&v, 0).unwrap();
    assert_eq!(
        ret.0,
        (
            SigSpec::WireId("DEST".to_string()),
            SigSpec::WireId("SRC".to_string()),
        )
    );
}

#[test]
fn test_memwr_stmt() {
    let input = "memwr \\ID $ADDR $DATA $EN 0'x\n";
    let expected = (
        "ID".to_string(),
        Memwr {
            attributes: Dict::new(),
            address: SigSpec::WireId("ADDR".to_string()),
            data: SigSpec::WireId("DATA".to_string()),
            enable: SigSpec::WireId("EN".to_string()),
            priority_mask: SigSpec::Constant(Constant::Value(vec![])),
        },
    );
    let v = chars(input);
    let ret = sync::memwr_stmt(&v, 0).unwrap();
    assert_eq!(ret.1, v.len());
    assert_eq!(ret.0, expected);
}

#[test]
fn test_module() {
    let input = "attribute \\top 1\nattribute \\src \"vectors/comb_not1.v:2.1-9.10\"\nmodule \\comb_not1\n    attribute \\src \"vectors/comb_not1.v:6.5-8.8\"\n    wire $0\\b[0:0]\n    attribute \\src \"vectors/comb_not1.v:7.13-7.15\"\n    wire $logic_not$vectors/comb_not1.v:7$2_Y\n    attribute \\src \"vectors/comb_not1.v:3.11-3.12\"\n    wire input 1 \\a\n    attribute \\src \"vectors/comb_not1.v:4.12-4.13\"\n    wire output 2 \\b\n    attribute \\src \"vectors/comb_not1.v:7.13-7.15\"\n    cell $logic_not $logic_not$vectors/comb_not1.v:7$2\n        parameter \\A_SIGNED 0\n        parameter \\A_WIDTH 1\n        parameter \\Y_WIDTH 1\n        connect \\A \\a\n        connect \\Y $logic_not$vectors/comb_not1.v:7$2_Y\n    end\n    connect $0\\b[0:0] $logic_not$vectors/comb_not1.v:7$2_Y\n    connect \\b $logic_not$vectors/comb_not1.v:7$2_Y\nend\n";
    let v = chars(input);
    let (found, _) = module::module(&v, 0).unwrap();
    let (id, m) = found;
    assert_eq!(id, "comb_not1");
    assert_eq!(m.attributes.len(), 2);
    assert_eq!(m.parameters.len(), 0);
    assert_eq!(m.wires.len(), 4);
    assert_eq!(m.memories.len(), 0);
    assert_eq!(m.cells.len(), 1);
    assert_eq!(m.processes.len(), 0);
    assert_eq!(m.connections.len(), 2);
}

#[test]
fn test_module_stmt() {
    let vectors = [
        ("module \\dynports\n", "dynports"),
        ("module \\top\n", "top"),
        ("module \\src\n", "src"),
    ];
    for (input, expected) in vectors {
        let v = chars(input);
        let ret = module::module_stmt(&v, 0).unwrap();
        assert_eq!(ret.0, expected);
    }
}

#[test]
fn test_module_end_stmt() {
    let v = chars("end\n");
    assert_eq!(module::module_end_stmt(&v, 0), Some(v.len()));
}
