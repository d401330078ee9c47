//! The two bounded buffers of the monitor, both `heapless::Vec`: the command
//! line (16 bytes) and the list of tokens parsed from it (8 values).
use vstd::prelude::*;

verus! {

/// Capacity of a command line, in bytes.
pub const LINE_CAPACITY: usize = 16;

/// Capacity of a token list.
pub const TOKEN_CAPACITY: usize = 8;

#[verifier::external_type_specification]
#[verifier::external_body]
#[verifier::reject_recursive_types(T)]
pub struct ExHeaplessVec<T, const N: usize>(heapless::Vec<T, N>);

/// Bytes of one command line as received from the serial transport.
pub type CommandLine = heapless::Vec<u8, 16>;

/// Values scanned out of one command line.
pub type TokenList = heapless::Vec<u64, 8>;

/// What a command line holds, in order.
pub uninterp spec fn line_contents(v: heapless::Vec<u8, 16>) -> Seq<u8>;

/// What a token list holds, in order.
pub uninterp spec fn token_contents(v: heapless::Vec<u64, 8>) -> Seq<u64>;

/// Relies on `heapless::Vec::new`: the vector starts empty.
#[verifier::external_body]
pub(crate) fn new_line() -> (r: CommandLine)
    ensures
        line_contents(r) == Seq::<u8>::empty(),
{
    heapless::Vec::new()
}

/// Relies on `heapless::Vec::push`: the byte is appended unless the sixteen
/// places are taken, in which case it is handed back and nothing changes.
#[verifier::external_body]
pub(crate) fn push_line(v: &mut CommandLine, b: u8) -> (r: Result<(), u8>)
    ensures
        line_contents(*final(v)) == if line_contents(*old(v)).len() < 16 {
            line_contents(*old(v)).push(b)
        } else {
            line_contents(*old(v))
        },
        r == if line_contents(*old(v)).len() < 16 {
            Ok::<(), u8>(())
        } else {
            Err::<(), u8>(b)
        },
{
    v.push(b)
}

/// Relies on `heapless::Vec::as_slice`: the stored bytes, in order.
#[verifier::external_body]
pub(crate) fn line_slice(v: &CommandLine) -> (r: &[u8])
    ensures
        r@ == line_contents(*v),
{
    v.as_slice()
}

/// Relies on `heapless::Vec::new`: the vector starts empty.
#[verifier::external_body]
pub(crate) fn new_tokens() -> (r: TokenList)
    ensures
        token_contents(r) == Seq::<u64>::empty(),
{
    heapless::Vec::new()
}

/// Relies on `heapless::Vec::push`: the value is appended unless the eight
/// places are taken, in which case it is handed back and nothing changes.
#[verifier::external_body]
pub(crate) fn push_token(v: &mut TokenList, t: u64) -> (r: Result<(), u64>)
    ensures
        token_contents(*final(v)) == if token_contents(*old(v)).len() < 8 {
            token_contents(*old(v)).push(t)
        } else {
            token_contents(*old(v))
        },
        r == if token_contents(*old(v)).len() < 8 {
            Ok::<(), u64>(())
        } else {
            Err::<(), u64>(t)
        },
{
    v.push(t)
}

/// Relies on `heapless::Vec::as_slice`: the stored values, in order.
#[verifier::external_body]
pub(crate) fn token_slice(v: &TokenList) -> (r: &[u64])
    ensures
        r@ == token_contents(*v),
{
    v.as_slice()
}

/// The values of a token list, in order.
pub fn token_values(v: &TokenList) -> (r: Vec<u64>)
    ensures
        r@ == token_contents(*v),
{
    let s = token_slice(v);
    let mut r: Vec<u64> = Vec::new();
    let mut i: usize = 0;
    while i < s.len()
        invariant
            i <= s@.len(),
            s@ == token_contents(*v),
            r@ == s@.take(i as int),
        decreases s.len() - i,
    {
        r.push(s[i]);
        i = i + 1;
        assert(r@ =~= s@.take(i as int));
    }
    assert(s@.take(i as int) =~= s@);
    r
}

} // verus!
