//! The node's JSON-RPC surface: the five methods the managers use, and the
//! hexadecimal quantities in which a node writes numbers.

use vstd::prelude::*;
use vstd::string::*;
use crate::text::concat2;

verus! {

/// A request that the managers make of a node.
#[derive(Clone, Copy, Debug, PartialEq, Eq, Structural)]
pub enum RpcMethod {
    /// The current block number.
    BlockNumber,
    /// Take a snapshot; the node answers with a handle.
    Snapshot,
    /// Revert to the snapshot of a handle.
    Revert,
    /// Dump the full state; the node answers with a blob.
    DumpState,
    /// Load a full state from a blob.
    LoadState,
}

impl RpcMethod {
    /// The method's name on the wire.
    pub open spec fn spec_name(self) -> Seq<char> {
        match self {
            RpcMethod::BlockNumber => "eth_blockNumber"@,
            RpcMethod::Snapshot => "evm_snapshot"@,
            RpcMethod::Revert => "evm_revert"@,
            RpcMethod::DumpState => "anvil_dumpState"@,
            RpcMethod::LoadState => "anvil_loadState"@,
        }
    }

    /// The method's name on the wire.
    pub fn name(&self) -> (r: &'static str)
        ensures
            r@ == self.spec_name(),
    {
        match self {
            RpcMethod::BlockNumber => "eth_blockNumber",
            RpcMethod::Snapshot => "evm_snapshot",
            RpcMethod::Revert => "evm_revert",
            RpcMethod::DumpState => "anvil_dumpState",
            RpcMethod::LoadState => "anvil_loadState",
        }
    }

    /// Whether the method takes a parameter: the handle to revert to, or
    /// the blob to load.
    pub fn takes_param(&self) -> (r: bool)
        ensures
            r == (*self == RpcMethod::Revert || *self == RpcMethod::LoadState),
    {
        match self {
            RpcMethod::Revert => true,
            RpcMethod::LoadState => true,
            _ => false,
        }
    }
}

/// The value of a hexadecimal digit, of either case.
pub open spec fn hex_digit(c: char) -> Option<nat> {
    if '0' <= c && c <= '9' {
        Some((c as nat - '0' as nat) as nat)
    } else if 'a' <= c && c <= 'f' {
        Some((c as nat - 'a' as nat + 10) as nat)
    } else if 'A' <= c && c <= 'F' {
        Some((c as nat - 'A' as nat + 10) as nat)
    } else {
        None
    }
}

/// Whether every character is a hexadecimal digit.
pub open spec fn all_hex(s: Seq<char>) -> bool {
    forall|i: int| 0 <= i < s.len() ==> hex_digit(#[trigger] s[i]) is Some
}

/// The number that a string of hexadecimal digits writes.
pub open spec fn hex_value(s: Seq<char>) -> nat
    decreases s.len(),
{
    if s.len() == 0 {
        0
    } else {
        hex_value(s.drop_last()) * 16 + hex_digit(s.last()).unwrap_or(0)
    }
}

/// The number of a quantity: `0x` and at least one hexadecimal digit, whose
/// value fits 64 bits. Anything else is no quantity.
pub open spec fn spec_parse_quantity(text: Seq<char>) -> Option<u64> {
    if text.len() >= 3 && text[0] == '0' && text[1] == 'x' && all_hex(text.skip(2)) && hex_value(
        text.skip(2),
    ) <= u64::MAX {
        Some(hex_value(text.skip(2)) as u64)
    } else {
        None
    }
}

/// The small-letter hexadecimal digit of a value below sixteen.
pub open spec fn hex_char(d: nat) -> char {
    if d == 0 {
        '0'
    } else if d == 1 {
        '1'
    } else if d == 2 {
        '2'
    } else if d == 3 {
        '3'
    } else if d == 4 {
        '4'
    } else if d == 5 {
        '5'
    } else if d == 6 {
        '6'
    } else if d == 7 {
        '7'
    } else if d == 8 {
        '8'
    } else if d == 9 {
        '9'
    } else if d == 10 {
        'a'
    } else if d == 11 {
        'b'
    } else if d == 12 {
        'c'
    } else if d == 13 {
        'd'
    } else if d == 14 {
        'e'
    } else {
        'f'
    }
}

/// The hexadecimal numeral of `n`, without leading zeros.
pub open spec fn hex(n: nat) -> Seq<char>
    decreases n,
{
    if n < 16 {
        seq![hex_char(n)]
    } else {
        hex(n / 16).push(hex_char(n % 16))
    }
}

/// The quantity that writes `n`.
pub open spec fn spec_format_quantity(n: u64) -> Seq<char> {
    "0x"@ + hex(n as nat)
}

/// A string of digits writes at least what any of its beginnings writes.
pub proof fn lemma_hex_value_grows(s: Seq<char>, k: int)
    requires
        0 <= k <= s.len(),
    ensures
        hex_value(s.take(k)) <= hex_value(s),
    decreases s.len() - k,
{
    if k == s.len() {
        assert(s.take(k) =~= s);
    } else {
        assert(s.drop_last().take(k) =~= s.take(k));
        lemma_hex_value_grows(s.drop_last(), k);
    }
}

/// A numeral is made of digits and writes its number.
pub proof fn lemma_hex_round_trip(n: nat)
    ensures
        all_hex(hex(n)),
        hex_value(hex(n)) == n,
        hex(n).len() >= 1,
    decreases n,
{
    if n < 16 {
        let s = hex(n);
        assert(s.len() == 1);
        assert(s.drop_last().len() == 0);
        assert(hex_digit(s.last()) == Some(n));
        assert(hex_value(s.drop_last()) == 0);
    } else {
        lemma_hex_round_trip(n / 16);
        let s = hex(n);
        let d = n % 16;
        assert(s.drop_last() =~= hex(n / 16));
        assert(s.last() == hex_char(d));
        assert(hex_digit(hex_char(d)) == Some(d));
        assert forall|i: int| 0 <= i < s.len() implies hex_digit(#[trigger] s[i]) is Some by {
            if i < s.len() - 1 {
                assert(s[i] == hex(n / 16)[i]);
            }
        }
    }
}

/// Writing a number as a quantity and reading it back gives the number.
pub proof fn lemma_quantity_round_trip(n: u64)
    ensures
        spec_parse_quantity(spec_format_quantity(n)) == Some(n),
{
    reveal_strlit("0x");
    lemma_hex_round_trip(n as nat);
    let text = spec_format_quantity(n);
    assert(text.skip(2) =~= hex(n as nat));
    assert(text[0] == '0' && text[1] == 'x');
}

fn digit_of(c: char) -> (r: Option<u64>)
    ensures
        match r {
            Some(d) => hex_digit(c) == Some(d as nat) && d < 16,
            None => hex_digit(c) is None,
        },
{
    let n: u32 = c as u32;
    if '0' <= c && c <= '9' {
        Some((n - 48) as u64)
    } else if 'a' <= c && c <= 'f' {
        Some((n - 97 + 10) as u64)
    } else if 'A' <= c && c <= 'F' {
        Some((n - 65 + 10) as u64)
    } else {
        None
    }
}

/// Reads a quantity as a node writes it.
pub fn parse_quantity(text: &str) -> (r: Option<u64>)
    ensures
        r == spec_parse_quantity(text@),
{
    let n = text.unicode_len();
    if n < 3 {
        return None;
    }
    if text.get_char(0) != '0' || text.get_char(1) != 'x' {
        return None;
    }
    let ghost digits = text@.skip(2);
    let mut acc: u64 = 0;
    let mut i: usize = 2;
    assert(digits.take(0) =~= Seq::<char>::empty());
    while i < n
        invariant
            2 <= i <= n,
            n == text@.len(),
            digits == text@.skip(2),
            all_hex(digits.take(i - 2)),
            acc == hex_value(digits.take(i - 2)),
        decreases n - i,
    {
        let ghost seen = digits.take(i - 2);
        let ghost more = digits.take(i - 1);
        proof {
            assert(more.drop_last() =~= seen);
            assert(more.last() == text@[i as int]);
        }
        match digit_of(text.get_char(i)) {
            None => {
                assert(hex_digit(digits[i - 2]) is None);
                return None;
            },
            Some(d) => {
                if acc > (u64::MAX - d) / 16 {
                    proof {
                        assert(hex_value(more) > u64::MAX);
                        lemma_hex_value_grows(digits, i - 1);
                    }
                    return None;
                }
                acc = acc * 16 + d;
                assert forall|j: int| 0 <= j < more.len() implies hex_digit(
                    #[trigger] more[j],
                ) is Some by {
                    if j < more.len() - 1 {
                        assert(more[j] == seen[j]);
                    }
                }
            },
        }
        i += 1;
    }
    assert(digits.take(n - 2) =~= digits);
    Some(acc)
}

fn hex_str(d: u64) -> (r: &'static str)
    requires
        d < 16,
    ensures
        r@ == seq![hex_char(d as nat)],
{
    proof {
        reveal_strlit("0");
        reveal_strlit("1");
        reveal_strlit("2");
        reveal_strlit("3");
        reveal_strlit("4");
        reveal_strlit("5");
        reveal_strlit("6");
        reveal_strlit("7");
        reveal_strlit("8");
        reveal_strlit("9");
        reveal_strlit("a");
        reveal_strlit("b");
        reveal_strlit("c");
        reveal_strlit("d");
        reveal_strlit("e");
        reveal_strlit("f");
    }
    let r = if d == 0 {
        "0"
    } else if d == 1 {
        "1"
    } else if d == 2 {
        "2"
    } else if d == 3 {
        "3"
    } else if d == 4 {
        "4"
    } else if d == 5 {
        "5"
    } else if d == 6 {
        "6"
    } else if d == 7 {
        "7"
    } else if d == 8 {
        "8"
    } else if d == 9 {
        "9"
    } else if d == 10 {
        "a"
    } else if d == 11 {
        "b"
    } else if d == 12 {
        "c"
    } else if d == 13 {
        "d"
    } else if d == 14 {
        "e"
    } else {
        "f"
    };
    assert(r@ =~= seq![hex_char(d as nat)]);
    r
}

fn hex_string(n: u64) -> (r: String)
    ensures
        r@ == hex(n as nat),
    decreases n,
{
    if n < 16 {
        String::from_str(hex_str(n))
    } else {
        let mut s = hex_string(n / 16);
        s.append(hex_str(n % 16));
        assert(s@ =~= hex(n as nat));
        s
    }
}

/// Writes a number as a quantity.
pub fn format_quantity(n: u64) -> (r: String)
    ensures
        r@ == spec_format_quantity(n),
        spec_parse_quantity(r@) == Some(n),
{
    proof {
        lemma_quantity_round_trip(n);
    }
    let digits = hex_string(n);
    concat2("0x", digits.as_str())
}

} // verus!
