use bytecode::trace::{header_line, Instruction, TraceLine};

#[test]
fn header_wraps_the_label() {
    assert_eq!(header_line("test chunk"), "== test chunk ==");
    assert_eq!(header_line(""), "==  ==");
    assert_eq!(header_line("a == b"), "== a == b ==");
    assert_eq!(header_line("héllo ∀"), format!("== {} ==", "héllo ∀"));
}

#[test]
fn return_line_is_offset_and_name() {
    let line = TraceLine { offset: 7, instruction: Instruction::Return };
    assert_eq!(line.render(""), "0007 OP_RETURN");
    assert_eq!(line.render("ignored"), "0007 OP_RETURN");
    assert_eq!(line.render(""), format!("{:04} {}", 7, "OP_RETURN"));
}

#[test]
fn constant_line_pads_name_and_index() {
    let line = TraceLine { offset: 12, instruction: Instruction::Constant { index: 3, value: 0 } };
    assert_eq!(line.render("1.2"), "0012 OP_CONSTANT         3 1.2");
    assert_eq!(
        line.render("1.2"),
        format!("{:04} {:<16} {:4} {}", 12, "OP_CONSTANT", 3u8, 1.2f64)
    );
}

#[test]
fn constant_line_shows_every_index_width() {
    for index in [0u8, 9, 10, 99, 100, 255] {
        let line = TraceLine { offset: 0, instruction: Instruction::Constant { index, value: 0 } };
        assert_eq!(
            line.render("-0.5"),
            format!("{:04} {:<16} {:4} {}", 0, "OP_CONSTANT", index, -0.5f64)
        );
    }
}

#[test]
fn constant_line_ends_with_the_given_value_text() {
    let line = TraceLine { offset: 0, instruction: Instruction::Constant { index: 0, value: 0 } };
    for value in [0.0f64, 1.2, -3.5, 1e100, f64::NAN, f64::INFINITY] {
        let text = format!("{}", value);
        assert_eq!(line.render(&text), format!("0000 OP_CONSTANT         0 {}", value));
    }
}

#[test]
fn unknown_line_shows_the_byte_in_decimal() {
    for opcode in [0u8, 3, 9, 10, 99, 100, 199, 255] {
        let line = TraceLine { offset: 1, instruction: Instruction::Unknown { opcode } };
        assert_eq!(line.render(""), format!("{:04} Unknown opcode {}", 1, opcode));
    }
}

#[test]
fn offset_is_padded_to_four_digits() {
    for offset in [0, 1, 9, 10, 99, 100, 999, 1000, 9999] {
        let line = TraceLine { offset, instruction: Instruction::Return };
        let text = line.render("");
        assert_eq!(text, format!("{:04} OP_RETURN", offset));
        assert_eq!(text.len(), 4 + 1 + 9);
    }
}

#[test]
fn offset_wider_than_four_digits_is_shown_in_full() {
    for offset in [10000, 123456, i32::MAX] {
        let line = TraceLine { offset, instruction: Instruction::Return };
        assert_eq!(line.render(""), format!("{:04} OP_RETURN", offset));
    }
    let line = TraceLine { offset: i32::MAX, instruction: Instruction::Return };
    assert_eq!(line.render(""), "2147483647 OP_RETURN");
}

#[test]
fn negative_offset_keeps_its_sign_in_front() {
    for offset in [-1, -9, -10, -999, -1000, i32::MIN] {
        let line = TraceLine { offset, instruction: Instruction::Return };
        assert_eq!(line.render(""), format!("{:04} OP_RETURN", offset));
    }
    let line = TraceLine { offset: -1, instruction: Instruction::Return };
    assert_eq!(line.render(""), "-001 OP_RETURN");
}
