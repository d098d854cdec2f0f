//! The text that a lock holder writes into the file: its process identifier
//! in decimal, then a newline.
use vstd::prelude::*;

verus! {

/// The ASCII digit of a value below ten.
pub open spec fn digit(d: nat) -> u8 {
    (48 + d) as u8
}

/// The decimal digits of `n`, most significant first, with no leading zero.
pub open spec fn decimal(n: nat) -> Seq<u8>
    decreases n,
{
    if n < 10 {
        seq![digit(n)]
    } else {
        decimal(n / 10).push(digit(n % 10))
    }
}

/// Whether a byte is an ASCII digit.
pub open spec fn is_digit(b: u8) -> bool {
    48 <= b <= 57
}

/// The number that a sequence of ASCII digits writes in decimal.
pub open spec fn decimal_value(s: Seq<u8>) -> nat
    decreases s.len(),
{
    if s.len() == 0 {
        0
    } else {
        decimal_value(s.drop_last()) * 10 + (s.last() - 48) as nat
    }
}

/// The payload for process `pid`: its decimal digits and a newline.
pub open spec fn pid_line(pid: u32) -> Seq<u8> {
    decimal(pid as nat).push(10u8)
}

/// The payload, with its final newline taken off, is a non-empty run of ASCII
/// digits that reads back as the process identifier.
pub proof fn lemma_pid_line_reads_back(pid: u32)
    ensures
        pid_line(pid).last() == 10u8,
        pid_line(pid).drop_last() == decimal(pid as nat),
        decimal(pid as nat).len() > 0,
        forall|i: int| 0 <= i < decimal(pid as nat).len() ==> is_digit(#[trigger] decimal(pid as nat)[i]),
        decimal_value(decimal(pid as nat)) == pid as nat,
{
    lemma_decimal_reads_back(pid as nat);
    assert(pid_line(pid).drop_last() =~= decimal(pid as nat));
}

/// The digits of `n` are ASCII digits and read back as `n`.
pub proof fn lemma_decimal_reads_back(n: nat)
    ensures
        decimal(n).len() > 0,
        forall|i: int| 0 <= i < decimal(n).len() ==> is_digit(#[trigger] decimal(n)[i]),
        decimal_value(decimal(n)) == n,
    decreases n,
{
    if n >= 10 {
        lemma_decimal_reads_back(n / 10);
        let s = decimal(n);
        assert(s.drop_last() =~= decimal(n / 10));
        assert(s.last() == digit(n % 10));
        assert(decimal_value(s) == (n / 10) * 10 + n % 10);
        assert forall|i: int| 0 <= i < s.len() implies is_digit(#[trigger] s[i]) by {
            if i < s.len() - 1 {
                assert(s[i] == decimal(n / 10)[i]);
            }
        }
    } else {
        let s = decimal(n);
        assert(s.drop_last() =~= Seq::<u8>::empty());
        assert(decimal_value(s.drop_last()) == 0);
    }
}

/// Appends the decimal digits of `n` to `out`.
fn push_decimal(out: &mut Vec<u8>, n: u32)
    ensures
        final(out)@ == old(out)@ + decimal(n as nat),
    decreases n,
{
    if n >= 10 {
        push_decimal(out, n / 10);
    }
    let d: u8 = (n % 10) as u8;
    out.push(48 + d);
    proof {
        if n >= 10 {
            assert(old(out)@ + decimal(n as nat) =~= old(out)@ + decimal((n / 10) as nat) + seq![
                digit((n % 10) as nat),
            ]);
        } else {
            assert(old(out)@ + decimal(n as nat) =~= old(out)@ + seq![digit(n as nat)]);
        }
    }
}

/// The bytes that a lock holder writes: `pid` in decimal, then a newline.
pub fn pid_payload(pid: u32) -> (r: Vec<u8>)
    ensures
        r@ == pid_line(pid),
{
    let mut out: Vec<u8> = Vec::new();
    push_decimal(&mut out, pid);
    out.push(10u8);
    proof {
        assert(out@ =~= pid_line(pid));
    }
    out
}

} // verus!
