use trembyle::console::{dispatch, ind, mem, memb, out, Command, Monitor};
use trembyle::hardware::HwOp;

fn feed_line(m: &mut Monitor, bytes: &[u8]) -> (Vec<u8>, bool, Option<Command>) {
    let mut echoed = Vec::new();
    let mut newline = false;
    let mut command = None;
    for (k, b) in bytes.iter().enumerate() {
        let r = m.feed(*b);
        echoed.push(r.echo);
        newline = r.newline;
        if r.command.is_some() {
            assert_eq!(k, bytes.len() - 1, "line completed early");
        }
        command = r.command;
    }
    (echoed, newline, command)
}

#[test]
fn memory_line_reads_each_address() {
    let mut m = Monitor::new();
    let (echoed, newline, command) = feed_line(&mut m, b"m 1000 2000\r");
    assert_eq!(echoed, b"m 1000 2000\r".to_vec());
    assert!(newline);
    match command {
        Some(Command::Run(ops)) => assert_eq!(
            ops,
            vec![HwOp::ReadMem64 { addr: 0x1000 }, HwOp::ReadMem64 { addr: 0x2000 }]
        ),
        other => panic!("unexpected {:?}", other),
    }
}

#[test]
fn bytes_before_terminator_complete_nothing() {
    let mut m = Monitor::new();
    let r = m.feed(b'm');
    assert_eq!(r.echo, b'm');
    assert!(!r.newline);
    assert!(r.command.is_none());
}

#[test]
fn eot_first_exits() {
    let mut m = Monitor::new();
    let r = m.feed(4);
    assert!(r.newline);
    assert!(matches!(r.command, Some(Command::Exit)));
}

#[test]
fn nul_first_exits_without_command() {
    let mut m = Monitor::new();
    let (_, _, command) = feed_line(&mut m, &[0, b'm', b' ', b'1', 13]);
    assert!(matches!(command, Some(Command::Exit)));
}

#[test]
fn sixteenth_byte_ends_line_without_newline() {
    let mut m = Monitor::new();
    let (_, newline, command) = feed_line(&mut m, b"m 1 2 3 4 5 abcd");
    assert!(!newline);
    match command {
        Some(Command::Run(ops)) => assert_eq!(ops.len(), 6),
        other => panic!("unexpected {:?}", other),
    }
    let r = m.feed(b'x');
    assert!(r.command.is_none());
}

#[test]
fn next_line_starts_empty() {
    let mut m = Monitor::new();
    let _ = feed_line(&mut m, b"i 80\n");
    let (_, _, command) = feed_line(&mut m, b"q\r");
    assert!(matches!(command, Some(Command::Ignore)));
}

#[test]
fn unknown_letter_is_ignored() {
    assert!(matches!(dispatch(b"x 12\r"), Command::Ignore));
}

#[test]
fn odd_out_line_drops_last_token() {
    let ops = out(b"o 80 1 81 2 99\r");
    assert_eq!(
        ops,
        vec![HwOp::PortOut { port: 0x80, value: 1 }, HwOp::PortOut { port: 0x81, value: 2 }]
    );
    assert_eq!(out(b"o 80\r"), vec![]);
}

#[test]
fn out_truncates_port_and_value() {
    assert_eq!(
        out(b"o 12345 1ffffffff"),
        vec![HwOp::PortOut { port: 0x2345, value: 0xffff_ffff }]
    );
}

#[test]
fn port_in_uses_low_bits() {
    assert_eq!(ind(b"i 10080 cf8\r"), vec![HwOp::PortIn { port: 0x80 }, HwOp::PortIn { port: 0xcf8 }]);
}

#[test]
fn mem_without_tokens_reads_nothing() {
    assert_eq!(mem(b"m\r"), vec![]);
}

#[test]
fn byte_dump_reads_sixteen_bytes() {
    let ops = memb(b"h 100\r");
    assert_eq!(ops.len(), 16);
    for (i, op) in ops.iter().enumerate() {
        assert_eq!(*op, HwOp::ReadMem8 { addr: 0x100 + i as u64 });
    }
}

#[test]
fn byte_dump_wraps_at_top_of_memory() {
    let ops = memb(b"h fffffffffffffff8");
    assert_eq!(ops[7], HwOp::ReadMem8 { addr: 0xffff_ffff_ffff_ffff });
    assert_eq!(ops[8], HwOp::ReadMem8 { addr: 0 });
}

#[test]
fn out_uses_low_port_bits() {
    assert_eq!(out(b"o 10080 5\r"), vec![HwOp::PortOut { port: 0x80, value: 5 }]);
}

#[test]
fn in_uses_low_port_bits() {
    assert_eq!(ind(b"i 10080\r"), vec![HwOp::PortIn { port: 0x80 }]);
}
