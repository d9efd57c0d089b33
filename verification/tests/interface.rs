use mcinterface::abi::AbiCall;
use mcinterface::abi::HostAbi;
use mcinterface::abi::Recorder;
use mcinterface::blocks::McBlock;
use mcinterface::emit::emit_literal;
use mcinterface::emit::print_int;
use mcinterface::emit::putc;
use mcinterface::emit::Stdout;
use mcinterface::template::StaticText;
use mcinterface::turtle::turtle_check;
use mcinterface::turtle::turtle_get;
use mcinterface::turtle::turtle_get_char;
use mcinterface::turtle::turtle_set;
use mcinterface::turtle::turtle_x;
use mcinterface::turtle::turtle_y;
use mcinterface::turtle::turtle_z;

#[test]
fn it_works() {
    assert_eq!(2 + 2, 4);
}

fn all_blocks() -> Vec<McBlock> {
    vec![
        McBlock::Air,
        McBlock::Cobblestone,
        McBlock::Granite,
        McBlock::Andesite,
        McBlock::Diorite,
        McBlock::LapisBlock,
        McBlock::IronBlock,
        McBlock::GoldBlock,
        McBlock::DiamondBlock,
        McBlock::RedstoneBlock,
        McBlock::EmeraldBlock,
    ]
}

#[test]
fn block_names_are_prefixed_and_distinct() {
    let blocks = all_blocks();
    assert_eq!(blocks.len(), 11);
    let names: Vec<&'static str> = blocks.iter().map(|b| b.to_name()).collect();
    for name in &names {
        assert!(name.starts_with("minecraft:"));
        assert!(name.len() > "minecraft:".len());
    }
    for i in 0..names.len() {
        for j in 0..names.len() {
            if i != j {
                assert_ne!(names[i], names[j]);
            }
        }
    }
}

#[test]
fn block_ordinals_round_trip() {
    for b in all_blocks() {
        let n = b.ordinal();
        assert!((0..=10).contains(&n));
        assert_eq!(McBlock::from_ordinal(n), Some(b));
    }
    assert_eq!(McBlock::from_ordinal(11), None);
    assert_eq!(McBlock::from_ordinal(-1), None);
    assert_eq!(McBlock::from_ordinal(i32::MAX), None);
}

#[test]
fn putc_stages_then_triggers() {
    for b in [0u8, 1, 72, 255] {
        let mut host = Recorder::new();
        putc(&mut host, b);
        assert_eq!(host.len(), 2);
        assert_eq!(
            host.get(0),
            AbiCall::Command {
                text: "scoreboard players operation %%temp0_putc $obj = $0 $obj",
                input: b as i32,
            }
        );
        assert_eq!(
            host.get(1),
            AbiCall::Command { text: "function stdout:putc", input: 0 }
        );
    }
}

#[test]
fn emit_literal_is_one_call() {
    let mut host = Recorder::new();
    emit_literal(&mut host, StaticText::new("Hi"));
    assert_eq!(host.len(), 1);
    match host.get(0) {
        AbiCall::Literal { text } => {
            assert_eq!(text, "Hi");
            assert_eq!(text.len(), 2);
        }
        other => panic!("unexpected call {:?}", other),
    }
}

#[test]
fn emit_literal_accepts_empty_text() {
    let mut host = Recorder::new();
    emit_literal(&mut host, StaticText::new(""));
    assert_eq!(host.len(), 1);
    assert_eq!(host.get(0), AbiCall::Literal { text: "" });
}

#[test]
fn write_str_emits_hi_newline_sequence() {
    let mut host = Recorder::new();
    let mut out = Stdout;
    let r = out.write_str(&mut host, "Hi\n");
    assert_eq!(r, Ok(()));
    assert_eq!(host.len(), 6);
    let stage = "scoreboard players operation %%temp0_putc $obj = $0 $obj";
    let trigger = "function stdout:putc";
    for (i, expected) in [72, 105, 10].iter().enumerate() {
        assert_eq!(
            host.get(2 * i),
            AbiCall::Command { text: stage, input: *expected }
        );
        assert_eq!(
            host.get(2 * i + 1),
            AbiCall::Command { text: trigger, input: 0 }
        );
    }
}

#[test]
fn write_str_walks_every_utf8_byte_in_order() {
    let text = "a\u{e9}!";
    let mut host = Recorder::new();
    let mut out = Stdout;
    let r = out.write_str(&mut host, text);
    assert_eq!(r, Ok(()));
    assert_eq!(host.len(), 2 * text.len());
    for (i, b) in text.bytes().enumerate() {
        match host.get(2 * i) {
            AbiCall::Command { input, .. } => assert_eq!(input, b as i32),
            other => panic!("unexpected call {:?}", other),
        }
        assert_eq!(
            host.get(2 * i + 1),
            AbiCall::Command { text: "function stdout:putc", input: 0 }
        );
    }
}

#[test]
fn write_str_of_empty_text_emits_nothing() {
    let mut host = Recorder::new();
    let mut out = Stdout;
    assert_eq!(out.write_str(&mut host, ""), Ok(()));
    assert_eq!(host.len(), 0);
}

#[test]
fn axis_setters_emit_one_call_each_in_order() {
    let mut host = Recorder::new();
    turtle_x(&mut host, 0);
    turtle_y(&mut host, 1);
    turtle_z(&mut host, 2);
    assert_eq!(host.len(), 3);
    let templates = [
        "execute as @e[tag=turtle] store result entity @s Pos[0] double 1 run scoreboard players get $0 $obj",
        "execute as @e[tag=turtle] store result entity @s Pos[1] double 1 run scoreboard players get $0 $obj",
        "execute as @e[tag=turtle] store result entity @s Pos[2] double 1 run scoreboard players get $0 $obj",
    ];
    for i in 0..3 {
        assert_eq!(
            host.get(i),
            AbiCall::Command { text: templates[i], input: i as i32 }
        );
    }
}

#[test]
fn axis_setters_pass_extreme_coordinates_through() {
    let mut host = Recorder::new();
    turtle_x(&mut host, i32::MIN);
    turtle_y(&mut host, -1);
    turtle_z(&mut host, i32::MAX);
    assert_eq!(host.len(), 3);
    match host.get(0) {
        AbiCall::Command { input, .. } => assert_eq!(input, i32::MIN),
        other => panic!("unexpected call {:?}", other),
    }
    match host.get(2) {
        AbiCall::Command { input, .. } => assert_eq!(input, i32::MAX),
        other => panic!("unexpected call {:?}", other),
    }
}

#[test]
fn print_int_is_one_call() {
    let mut host = Recorder::new();
    print_int(&mut host, -42);
    assert_eq!(host.len(), 1);
    assert_eq!(host.get(0), AbiCall::PrintInt { value: -42 });
}

#[test]
fn block_operations_carry_the_ordinal() {
    let mut host = Recorder::new();
    turtle_set(&mut host, McBlock::Cobblestone);
    let present = turtle_check(&mut host, McBlock::EmeraldBlock);
    let seen = turtle_get(&mut host);
    let c = turtle_get_char(&mut host);
    assert_eq!(host.len(), 4);
    assert_eq!(host.get(0), AbiCall::SetBlock { block: 1 });
    assert_eq!(host.get(1), AbiCall::CheckBlock { block: 10 });
    assert_eq!(host.get(2), AbiCall::GetBlock);
    assert_eq!(host.get(3), AbiCall::GetChar);
    // The recorder double answers every query with its fixed defaults.
    assert!(!present);
    assert_eq!(seen, Some(McBlock::Air));
    assert_eq!(c, 0);
}

#[test]
fn operations_reach_the_host_in_program_order() {
    let mut host = Recorder::new();
    putc(&mut host, 72);
    emit_literal(&mut host, StaticText::new("Hi"));
    turtle_x(&mut host, 5);
    print_int(&mut host, 9);
    assert_eq!(host.len(), 5);
    assert_eq!(
        host.get(0),
        AbiCall::Command {
            text: "scoreboard players operation %%temp0_putc $obj = $0 $obj",
            input: 72,
        }
    );
    assert_eq!(
        host.get(1),
        AbiCall::Command { text: "function stdout:putc", input: 0 }
    );
    assert_eq!(host.get(2), AbiCall::Literal { text: "Hi" });
    match host.get(3) {
        AbiCall::Command { text, input } => {
            assert!(text.contains("Pos[0]"));
            assert_eq!(input, 5);
        }
        other => panic!("unexpected call {:?}", other),
    }
    assert_eq!(host.get(4), AbiCall::PrintInt { value: 9 });
}

#[test]
fn direct_command_injection_packages_template_and_input() {
    let mut host = Recorder::new();
    let say = StaticText::new("say hello world");
    host.insert_asm(say, 0);
    host.insert_asm(StaticText::new("execute if score $0 $obj matches 42..42 run say Foo was 42"), 42);
    assert_eq!(host.len(), 2);
    assert_eq!(
        host.get(0),
        AbiCall::Command { text: "say hello world", input: 0 }
    );
    assert_eq!(
        host.get(1),
        AbiCall::Command {
            text: "execute if score $0 $obj matches 42..42 run say Foo was 42",
            input: 42,
        }
    );
}

#[test]
fn static_text_keeps_its_bytes() {
    let t = StaticText::new("say hello");
    assert_eq!(t.text(), "say hello");
    let copy = t;
    assert_eq!(copy.text(), "say hello");
}

#[test]
fn fresh_recorder_has_an_empty_trace() {
    let host = Recorder::new();
    assert_eq!(host.len(), 0);
}
