//! Prosign constants and the contest message compiler.
//!
//! A template is CW text with two inline escapes: `<NAME>` sends a prosign
//! (AR, SK, BT, KN, AS; unknown names are dropped) and `{N}` changes the
//! buffered speed to N WPM, where `{0}` or `{}` cancels the change.

use vstd::prelude::*;

use crate::protocol::command::{buffered_merge, buffered_speed_change, cancel_buffered_speed};
use crate::text::{
    ascii_upper, ascii_uppercase, chars_of, parse_u8, parsed_u8, trim_chars, trimmed,
    upper_text, uppercase_chars,
};

verus! {

/// Prosign: AR (end of message)
pub const PROSIGN_AR: (u8, u8) = (0x41, 0x52);
/// Prosign: SK (end of contact)
pub const PROSIGN_SK: (u8, u8) = (0x53, 0x4B);
/// Prosign: BT (separator)
pub const PROSIGN_BT: (u8, u8) = (0x42, 0x54);
/// Prosign: KN (go ahead, named station only)
pub const PROSIGN_KN: (u8, u8) = (0x4B, 0x4E);
/// Prosign: AS (wait)
pub const PROSIGN_AS: (u8, u8) = (0x41, 0x53);

/// The letters of the prosign whose uppercase name is `name`.
pub open spec fn prosign_of(name: Seq<char>) -> Option<(u8, u8)> {
    if name == seq!['A', 'R'] {
        Some(PROSIGN_AR)
    } else if name == seq!['S', 'K'] {
        Some(PROSIGN_SK)
    } else if name == seq!['B', 'T'] {
        Some(PROSIGN_BT)
    } else if name == seq!['K', 'N'] {
        Some(PROSIGN_KN)
    } else if name == seq!['A', 'S'] {
        Some(PROSIGN_AS)
    } else {
        None
    }
}

/// The bytes for `<name>`: a merge of the prosign's letters, or nothing
/// when the name, in uppercase, is no known prosign.
pub open spec fn prosign_bytes(name: Seq<char>) -> Seq<u8> {
    match prosign_of(upper_text(name)) {
        Some(p) => seq![0x1Bu8, p.0, p.1],
        None => Seq::empty(),
    }
}

/// The bytes for `{inner}`: a buffered speed change to N when the trimmed
/// text is a number N of at least 1, otherwise a cancel of the change.
pub open spec fn speed_bytes(inner: Seq<char>) -> Seq<u8> {
    match parsed_u8(trimmed(inner)) {
        Some(n) => if n >= 1 {
            seq![0x1Cu8, n]
        } else {
            seq![0x1Eu8]
        },
        None => seq![0x1Eu8],
    }
}

/// Index of the first `stop` in `t` at or after `from`, or the length of
/// `t` when there is none.
pub open spec fn stop_index(t: Seq<char>, from: int, stop: char) -> int
    decreases t.len() - from,
{
    if from < 0 || from >= t.len() {
        t.len() as int
    } else if t[from] == stop {
        from
    } else {
        stop_index(t, from + 1, stop)
    }
}

/// The bytes compiled from `t` starting at index `i`. An escape runs to its
/// closing bracket, which is consumed, or to the end of the template.
pub open spec fn compile_from(t: Seq<char>, i: int) -> Seq<u8>
    decreases t.len() - i,
{
    if i < 0 || i >= t.len() {
        Seq::empty()
    } else if t[i] == '<' || t[i] == '{' {
        let stop = if t[i] == '<' {
            '>'
        } else {
            '}'
        };
        let j = stop_index(t, i + 1, stop);
        let next = if j < t.len() {
            j + 1
        } else {
            t.len() as int
        };
        let inner = t.subrange(i + 1, j);
        let piece = if t[i] == '<' {
            prosign_bytes(inner)
        } else {
            speed_bytes(inner)
        };
        if i < next <= t.len() {
            piece + compile_from(t, next)
        } else {
            piece
        }
    } else {
        seq![ascii_upper(t[i]) as u8] + compile_from(t, i + 1)
    }
}

/// The bytes a whole template compiles to.
pub open spec fn compiled_message(t: Seq<char>) -> Seq<u8> {
    compile_from(t, 0)
}

/// Parse a prosign name to its component letters.
fn parse_prosign(name: &Vec<char>) -> (r: Option<(u8, u8)>)
    ensures
        r == prosign_of(upper_text(name@)),
{
    let up = uppercase_chars(name);
    if up.len() != 2 {
        assert(up@ != seq!['A', 'R'] && up@ != seq!['S', 'K'] && up@ != seq!['B', 'T'] && up@
            != seq!['K', 'N'] && up@ != seq!['A', 'S']);
        return None;
    }
    let a = up[0];
    let b = up[1];
    assert(up@ =~= seq![a, b]);
    if a == 'A' && b == 'R' {
        Some(PROSIGN_AR)
    } else if a == 'S' && b == 'K' {
        Some(PROSIGN_SK)
    } else if a == 'B' && b == 'T' {
        Some(PROSIGN_BT)
    } else if a == 'K' && b == 'N' {
        Some(PROSIGN_KN)
    } else if a == 'A' && b == 'S' {
        Some(PROSIGN_AS)
    } else {
        assert(up@ != seq!['A', 'R'] && up@ != seq!['S', 'K'] && up@ != seq!['B', 'T'] && up@
            != seq!['K', 'N'] && up@ != seq!['A', 'S']);
        None
    }
}

fn append_array(out: &mut Vec<u8>, bytes: &[u8])
    ensures
        final(out)@ == old(out)@ + bytes@,
{
    let mut k: usize = 0;
    while k < bytes.len()
        invariant
            k <= bytes@.len(),
            out@ == old(out)@ + bytes@.take(k as int),
        decreases bytes@.len() - k,
    {
        out.push(bytes[k]);
        k = k + 1;
        assert(bytes@.take(k as int) =~= bytes@.take(k - 1) + seq![bytes@[k - 1]]);
    }
    assert(bytes@.take(k as int) =~= bytes@);
}

/// Build a contest CW message from a template string: plain characters in
/// ASCII uppercase, `<AR>`-style prosigns as merge commands, `{20}` as a
/// buffered speed change and `{0}` or `{}` as its cancel.
pub fn build_contest_message(template: &str) -> (r: Vec<u8>)
    ensures
        r@ == compiled_message(template@),
{
    let t = chars_of(template);
    let mut output: Vec<u8> = Vec::new();
    let mut i: usize = 0;
    while i < t.len()
        invariant
            t@ == template@,
            i <= t@.len(),
            compiled_message(t@) == output@ + compile_from(t@, i as int),
        decreases t@.len() - i,
    {
        let ch = t[i];
        if ch == '<' || ch == '{' {
            let stop = if ch == '<' {
                '>'
            } else {
                '}'
            };
            let mut j: usize = i + 1;
            while j < t.len() && t[j] != stop
                invariant
                    i + 1 <= j <= t@.len(),
                    stop_index(t@, i + 1, stop) == stop_index(t@, j as int, stop),
                decreases t@.len() - j,
            {
                j = j + 1;
            }
            let mut inner: Vec<char> = Vec::new();
            let mut k: usize = i + 1;
            while k < j
                invariant
                    i + 1 <= k <= j <= t@.len(),
                    inner@ == t@.subrange(i + 1, k as int),
                decreases j - k,
            {
                inner.push(t[k]);
                k = k + 1;
                assert(t@.subrange(i + 1, k as int) =~= t@.subrange(i + 1, k - 1) + seq![
                    t@[k - 1],
                ]);
            }
            let ghost before = output@;
            if ch == '<' {
                match parse_prosign(&inner) {
                    Some((c1, c2)) => {
                        let cmd = buffered_merge(c1, c2);
                        append_array(&mut output, &cmd);
                    },
                    None => {},
                }
            } else {
                let trimmed_inner = trim_chars(&inner);
                let wpm: u8 = match parse_u8(&trimmed_inner) {
                    Some(n) => n,
                    None => 0,
                };
                if wpm == 0 {
                    let cmd = cancel_buffered_speed();
                    append_array(&mut output, &cmd);
                } else {
                    let cmd = buffered_speed_change(wpm);
                    append_array(&mut output, &cmd);
                }
            }
            let next: usize = if j < t.len() {
                j + 1
            } else {
                t.len()
            };
            assert(output@ =~= before + (if ch == '<' {
                crate::message::prosign_bytes(t@.subrange(i + 1, j as int))
            } else {
                crate::message::speed_bytes(t@.subrange(i + 1, j as int))
            }));
            i = next;
        } else {
            output.push(ascii_uppercase(ch) as u8);
            i = i + 1;
        }
    }
    output
}

} // verus!
