//! The debug monitor: a line of at most sixteen bytes is collected from the
//! serial transport, echoing each byte, and its first byte picks a command
//! whose hex tokens are turned into hardware accesses.
use vstd::prelude::*;
use crate::buffers::{
    line_contents, line_slice, new_line, push_line, token_contents, token_slice, CommandLine,
    TokenList, LINE_CAPACITY,
};
use crate::hardware::HwOp;
use crate::tokens::{hex, lemma_line_tokens_fit, tokens_of};

verus! {

/// Carriage return.
pub const CR: u8 = 13;

/// Line feed.
pub const LF: u8 = 10;

/// End of transmission.
pub const EOT: u8 = 4;

/// `m`: memory dump.
pub const CMD_MEM: u8 = 109;

/// `i`: port-in dump.
pub const CMD_PORT_IN: u8 = 105;

/// `o`: port output.
pub const CMD_PORT_OUT: u8 = 111;

/// `h`: byte dump.
pub const CMD_BYTES: u8 = 104;

/// Number of bytes shown for each address of a byte dump.
pub const DUMP_WIDTH: u64 = 16;

/// Bytes that end a line explicitly.
pub open spec fn is_terminator(b: u8) -> bool {
    b == CR || b == LF || b == EOT
}

/// First bytes that leave the monitor.
pub open spec fn is_exit_byte(b: u8) -> bool {
    b == 0 || b == EOT
}

/// `a + i`, wrapping past the top of the address space.
pub open spec fn offset_addr(a: u64, i: u64) -> u64 {
    ((a as int + i as int) % 0x1_0000_0000_0000_0000) as u64
}

/// `m`: one 64-bit read at each token.
pub open spec fn mem_plan(t: Seq<u64>) -> Seq<HwOp> {
    Seq::new(t.len(), |k: int| HwOp::ReadMem64 { addr: t[k] })
}

/// `i`: one 32-bit port read at each token's low 16 bits.
pub open spec fn ind_plan(t: Seq<u64>) -> Seq<HwOp> {
    Seq::new(t.len(), |k: int| HwOp::PortIn { port: (t[k] % 0x1_0000) as u16 })
}

/// `o`: tokens taken two by two, the low 16 bits of the first as the port and
/// the low 32 bits of the second as the value; an unpaired last token is
/// dropped.
pub open spec fn out_plan(t: Seq<u64>) -> Seq<HwOp> {
    Seq::new(
        t.len() / 2,
        |k: int|
            HwOp::PortOut {
                port: (t[2 * k] % 0x1_0000) as u16,
                value: (t[2 * k + 1] % 0x1_0000_0000) as u32,
            },
    )
}

/// `h`: for each token, the sixteen bytes from that address on.
pub open spec fn memb_plan(t: Seq<u64>) -> Seq<HwOp> {
    Seq::new(
        t.len() * 16,
        |j: int| HwOp::ReadMem8 { addr: offset_addr(t[j / 16], (j % 16) as u64) },
    )
}

/// What a completed line asks for.
#[derive(Debug)]
pub enum Command {
    /// Leave the monitor.
    Exit,
    /// Perform these accesses in order, reporting each.
    Run(Vec<HwOp>),
    /// Nothing to do; read the next line.
    Ignore,
}

/// The command that a completed, non-empty line stands for.
pub open spec fn describes(c: Command, line: Seq<u8>) -> bool {
    let first = line[0];
    let t = tokens_of(line);
    match c {
        Command::Exit => is_exit_byte(first),
        Command::Ignore => !is_exit_byte(first) && first != CMD_MEM && first != CMD_PORT_IN && first != CMD_PORT_OUT
            && first != CMD_BYTES,
        Command::Run(ops) => (first == CMD_MEM && ops@ == mem_plan(t)) || (first == CMD_PORT_IN && ops@
            == ind_plan(t)) || (first == CMD_PORT_OUT && ops@ == out_plan(t)) || (first == CMD_BYTES && ops@
            == memb_plan(t)),
    }
}

fn scan(line: &[u8]) -> (t: TokenList)
    requires
        line@.len() <= LINE_CAPACITY,
    ensures
        token_contents(t) == tokens_of(line@),
        token_contents(t).len() <= 8,
{
    proof {
        lemma_line_tokens_fit(line@);
    }
    hex(line)
}

/// Memory dump: the 64-bit reads of an `m` line.
pub fn mem(line: &[u8]) -> (ops: Vec<HwOp>)
    requires
        line@.len() <= LINE_CAPACITY,
    ensures
        ops@ == mem_plan(tokens_of(line@)),
{
    let list = scan(line);
    let t = token_slice(&list);
    let mut ops: Vec<HwOp> = Vec::new();
    let mut k: usize = 0;
    while k < t.len()
        invariant
            k <= t@.len(),
            t@ == tokens_of(line@),
            ops@ == mem_plan(t@.take(k as int)),
        decreases t.len() - k,
    {
        ops.push(HwOp::ReadMem64 { addr: t[k] });
        k = k + 1;
        assert(ops@ =~= mem_plan(t@.take(k as int)));
    }
    assert(t@.take(k as int) =~= t@);
    ops
}

/// Port-in dump: the port reads of an `i` line.
pub fn ind(line: &[u8]) -> (ops: Vec<HwOp>)
    requires
        line@.len() <= LINE_CAPACITY,
    ensures
        ops@ == ind_plan(tokens_of(line@)),
{
    let list = scan(line);
    let t = token_slice(&list);
    let mut ops: Vec<HwOp> = Vec::new();
    let mut k: usize = 0;
    while k < t.len()
        invariant
            k <= t@.len(),
            t@ == tokens_of(line@),
            ops@ == ind_plan(t@.take(k as int)),
        decreases t.len() - k,
    {
        ops.push(HwOp::PortIn { port: (t[k] % 0x1_0000) as u16 });
        k = k + 1;
        assert(ops@ =~= ind_plan(t@.take(k as int)));
    }
    assert(t@.take(k as int) =~= t@);
    ops
}

/// Port output: the port writes of an `o` line, one for each pair of tokens.
pub fn out(line: &[u8]) -> (ops: Vec<HwOp>)
    requires
        line@.len() <= LINE_CAPACITY,
    ensures
        ops@ == out_plan(tokens_of(line@)),
{
    let list = scan(line);
    let t = token_slice(&list);
    let mut ops: Vec<HwOp> = Vec::new();
    let mut k: usize = 0;
    while k < t.len() / 2
        invariant
            k <= t@.len() / 2,
            t@ == tokens_of(line@),
            ops@.len() == k,
            forall|j: int| 0 <= j < k ==> ops@[j] == out_plan(t@)[j],
        decreases t.len() / 2 - k,
    {
        ops.push(
            HwOp::PortOut {
                port: (t[2 * k] % 0x1_0000) as u16,
                value: (t[2 * k + 1] % 0x1_0000_0000) as u32,
            },
        );
        k = k + 1;
    }
    assert(ops@ =~= out_plan(t@));
    ops
}

/// Byte dump: the sixteen byte reads for each token of an `h` line.
pub fn memb(line: &[u8]) -> (ops: Vec<HwOp>)
    requires
        line@.len() <= LINE_CAPACITY,
    ensures
        ops@ == memb_plan(tokens_of(line@)),
{
    let list = scan(line);
    let t = token_slice(&list);
    let mut ops: Vec<HwOp> = Vec::new();
    let mut k: usize = 0;
    while k < t.len()
        invariant
            k <= t@.len(),
            t@.len() <= 8,
            t@ == tokens_of(line@),
            ops@.len() == k * 16,
            forall|j: int| 0 <= j < k * 16 ==> ops@[j] == memb_plan(t@)[j],
        decreases t.len() - k,
    {
        let mut i: u64 = 0;
        while i < DUMP_WIDTH
            invariant
                k < t@.len(),
                t@.len() <= 8,
                i <= 16,
                ops@.len() == k * 16 + i,
                forall|j: int| 0 <= j < k * 16 + i ==> ops@[j] == memb_plan(t@)[j],
            decreases 16 - i,
        {
            let addr = t[k].wrapping_add(i);
            ops.push(HwOp::ReadMem8 { addr });
            proof {
                let j = k * 16 + i;
                assert(j / 16 == k && j % 16 == i) by (nonlinear_arith)
                    requires
                        j == k * 16 + i,
                        0 <= i < 16,
                ;
                assert(j < t@.len() * 16) by (nonlinear_arith)
                    requires
                        j == k * 16 + i,
                        0 <= i < 16,
                        k < t@.len(),
                ;
            }
            i = i + 1;
        }
        k = k + 1;
    }
    assert(ops@ =~= memb_plan(t@));
    ops
}

/// Picks the command of a completed line by its first byte.
pub fn dispatch(line: &[u8]) -> (c: Command)
    requires
        1 <= line@.len() <= LINE_CAPACITY,
    ensures
        describes(c, line@),
{
    let first = line[0];
    if first == 0 || first == EOT {
        Command::Exit
    } else if first == CMD_MEM {
        Command::Run(mem(line))
    } else if first == CMD_PORT_IN {
        Command::Run(ind(line))
    } else if first == CMD_PORT_OUT {
        Command::Run(out(line))
    } else if first == CMD_BYTES {
        Command::Run(memb(line))
    } else {
        Command::Ignore
    }
}

/// Every access of an `o` line is a port write, one per pair of tokens, so an
/// odd token count leaves the last token unused.
pub proof fn lemma_out_writes_pairs(t: Seq<u64>)
    ensures
        out_plan(t).len() == t.len() / 2,
        forall|k: int| 0 <= k < out_plan(t).len() ==> (#[trigger] out_plan(t)[k]).is_write(),
        t.len() % 2 == 1 ==> 2 * out_plan(t).len() + 1 == t.len(),
{
}

/// A line that starts with NUL or EOT leaves the monitor and issues no access.
pub proof fn lemma_exit_line_runs_nothing(c: Command, line: Seq<u8>)
    requires
        line.len() >= 1,
        is_exit_byte(line[0]),
        describes(c, line),
    ensures
        c is Exit,
{
}

/// What the monitor does with one received byte.
#[derive(Debug)]
pub struct Reaction {
    /// The byte to send back at once.
    pub echo: u8,
    /// Whether a CR LF pair follows the echo.
    pub newline: bool,
    /// The command of the line, once the byte completed one.
    pub command: Option<Command>,
}

/// The monitor between two bytes: the part of the current line received so far.
pub struct Monitor {
    line: CommandLine,
}

impl Monitor {
    /// The bytes of the current line received so far.
    pub closed spec fn pending(&self) -> Seq<u8> {
        line_contents(self.line)
    }

    /// A line in progress always has room for one more byte.
    pub closed spec fn wf(&self) -> bool {
        self.pending().len() < LINE_CAPACITY
    }

    /// A monitor waiting for the first byte of a line.
    pub fn new() -> (m: Monitor)
        ensures
            m.wf(),
            m.pending() == Seq::<u8>::empty(),
    {
        Monitor { line: new_line() }
    }

    /// Takes one byte from the transport. The byte is echoed; a terminator
    /// (CR, LF, EOT) ends the line with a CR LF pair, and the sixteenth byte
    /// ends it without one. A completed line yields its command and the next
    /// line starts empty.
    pub fn feed(&mut self, c: u8) -> (r: Reaction)
        requires
            old(self).wf(),
        ensures
            final(self).wf(),
            r.echo == c,
            r.newline == is_terminator(c),
            ({
                let line = old(self).pending().push(c);
                if is_terminator(c) || line.len() == LINE_CAPACITY {
                    final(self).pending() == Seq::<u8>::empty() && r.command is Some && describes(
                        r.command->Some_0,
                        line,
                    )
                } else {
                    final(self).pending() == line && r.command is None
                }
            }),
    {
        let _ = push_line(&mut self.line, c);
        let newline = c == CR || c == LF || c == EOT;
        let line = line_slice(&self.line);
        if newline || line.len() == LINE_CAPACITY {
            let command = dispatch(line);
            self.line = new_line();
            Reaction { echo: c, newline, command: Some(command) }
        } else {
            Reaction { echo: c, newline, command: None }
        }
    }
}

} // verus!
