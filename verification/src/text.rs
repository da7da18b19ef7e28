//! Text building blocks of the wire format: decimal numbers, quoting of
//! tokens, and appending to an output buffer.

use vstd::prelude::*;
use vstd::std_specs::iter::IteratorSpec;

verus! {

/// The character that writes the decimal digit `d` (for `d < 10`).
pub open spec fn digit_char(d: nat) -> char {
    if d == 0 {
        '0'
    } else if d == 1 {
        '1'
    } else if d == 2 {
        '2'
    } else if d == 3 {
        '3'
    } else if d == 4 {
        '4'
    } else if d == 5 {
        '5'
    } else if d == 6 {
        '6'
    } else if d == 7 {
        '7'
    } else if d == 8 {
        '8'
    } else {
        '9'
    }
}

/// The decimal numeral of `n`: no sign, no leading zeros, `0` for zero.
pub open spec fn decimal_digits(n: nat) -> Seq<char>
    decreases n,
{
    if n < 10 {
        seq![digit_char(n)]
    } else {
        decimal_digits(n / 10).push(digit_char(n % 10))
    }
}

/// The text of one decimal digit.
fn digit_of(d: u64) -> (s: &'static str)
    requires
        d < 10,
    ensures
        s@ == seq![digit_char(d as nat)],
{
    proof {
        reveal_strlit("0");
        reveal_strlit("1");
        reveal_strlit("2");
        reveal_strlit("3");
        reveal_strlit("4");
        reveal_strlit("5");
        reveal_strlit("6");
        reveal_strlit("7");
        reveal_strlit("8");
        reveal_strlit("9");
    }
    let s = if d == 0 {
        "0"
    } else if d == 1 {
        "1"
    } else if d == 2 {
        "2"
    } else if d == 3 {
        "3"
    } else if d == 4 {
        "4"
    } else if d == 5 {
        "5"
    } else if d == 6 {
        "6"
    } else if d == 7 {
        "7"
    } else if d == 8 {
        "8"
    } else {
        "9"
    };
    assert(s@ =~= seq![digit_char(d as nat)]);
    s
}

/// Appends the decimal numeral of `n` to `out`.
pub fn push_decimal(out: &mut String, n: u64)
    ensures
        final(out)@ == old(out)@ + decimal_digits(n as nat),
    decreases n,
{
    if n >= 10 {
        push_decimal(out, n / 10);
    }
    out.append(digit_of(n % 10));
    assert(out@ =~= old(out)@ + decimal_digits(n as nat));
}

/// Whether `c` separates tokens on a line: space, tab, line feed, form feed
/// or carriage return.
pub open spec fn is_blank(c: char) -> bool {
    c == ' ' || c == '\t' || c == '\n' || c == '\x0C' || c == '\r'
}

/// Whether some character of `s` is blank.
pub open spec fn has_blank(s: Seq<char>) -> bool {
    exists|i: int| 0 <= i < s.len() && is_blank(#[trigger] s[i])
}

/// A free-text token as the wire format carries it: wrapped in double quotes
/// when it is empty or holds a blank, bare otherwise.
pub open spec fn quoted_token(s: Seq<char>) -> Seq<char> {
    if s.len() == 0 || has_blank(s) {
        "\""@ + s + "\""@
    } else {
        s
    }
}

/// Decides whether `s` holds a blank character.
pub fn contains_blank(s: &str) -> (r: bool)
    ensures
        r == has_blank(s@),
{
    let mut it = s.chars();
    let ghost mut seen: int = 0;
    loop
        invariant
            0 <= seen <= s@.len(),
            it.remaining() == s@.subrange(seen, s@.len() as int),
            forall|i: int| 0 <= i < seen ==> !is_blank(#[trigger] s@[i]),
        decreases s@.len() - seen,
    {
        match it.next() {
            Some(c) => {
                if c == ' ' || c == '\t' || c == '\n' || c == '\x0C' || c == '\r' {
                    assert(is_blank(s@[seen]));
                    return true;
                }
                proof {
                    seen = seen + 1;
                }
            },
            None => {
                return false;
            },
        }
    }
}

/// Appends `s` to `out` as a free-text token.
pub fn push_quoted(out: &mut String, s: &str)
    ensures
        final(out)@ == old(out)@ + quoted_token(s@),
{
    if s.is_empty() || contains_blank(s) {
        out.append("\"");
        out.append(s);
        out.append("\"");
        assert(out@ =~= old(out)@ + quoted_token(s@));
    } else {
        out.append(s);
    }
}

/// The start of a header line: the mode in `$v(..)`, a space, the keyword.
pub open spec fn tagged(mode: Seq<char>, keyword: Seq<char>) -> Seq<char> {
    "$v("@ + mode + ") "@ + keyword
}

/// Appends the start of a header line to `out`.
pub fn push_tagged(out: &mut String, mode: &str, keyword: &str)
    ensures
        final(out)@ == old(out)@ + tagged(mode@, keyword@),
{
    out.append("$v(");
    out.append(mode);
    out.append(") ");
    out.append(keyword);
    assert(out@ =~= old(out)@ + tagged(mode@, keyword@));
}

/// A fragment of a line: a value that knows the characters it contributes.
pub trait Wire {
    /// The characters that the value contributes to a line.
    spec fn wire(&self) -> Seq<char>;

    /// Appends those characters to `out`.
    fn push_wire(&self, out: &mut String)
        ensures
            final(out)@ == old(out)@ + self.wire(),
    ;
}

/// The fragments of `items`, one after the other.
pub open spec fn wire_all<T: Wire>(items: Seq<T>) -> Seq<char>
    decreases items.len(),
{
    if items.len() == 0 {
        Seq::empty()
    } else {
        wire_all(items.drop_last()) + items.last().wire()
    }
}

/// One more item adds its fragment at the end.
pub proof fn lemma_wire_all_step<T: Wire>(items: Seq<T>, n: int)
    requires
        0 <= n < items.len(),
    ensures
        wire_all(items.take(n + 1)) == wire_all(items.take(n)) + items[n].wire(),
{
    assert(items.take(n + 1).drop_last() =~= items.take(n));
}

/// Appends the fragments of all `items` to `out`.
pub fn push_wire_all<T: Wire>(out: &mut String, items: &Vec<T>)
    ensures
        final(out)@ == old(out)@ + wire_all(items@),
{
    let mut i: usize = 0;
    assert(out@ =~= old(out)@ + wire_all(items@.take(0)));
    while i < items.len()
        invariant
            0 <= i <= items@.len(),
            out@ == old(out)@ + wire_all(items@.take(i as int)),
        decreases items@.len() - i,
    {
        items[i].push_wire(out);
        proof {
            lemma_wire_all_step(items@, i as int);
            assert(out@ =~= old(out)@ + wire_all(items@.take(i as int + 1)));
        }
        i += 1;
    }
    assert(items@.take(items@.len() as int) =~= items@);
}

/// A run of whole lines that depends on the mode it is written for.
pub trait Block {
    /// The lines, for the given mode.
    spec fn block(&self, mode: Seq<char>) -> Seq<char>;

    /// Appends the lines to `out`.
    fn push_block(&self, out: &mut String, mode: &str)
        ensures
            final(out)@ == old(out)@ + self.block(mode@),
    ;
}

/// The blocks of `items`, one after the other.
pub open spec fn block_all<T: Block>(items: Seq<T>, mode: Seq<char>) -> Seq<char>
    decreases items.len(),
{
    if items.len() == 0 {
        Seq::empty()
    } else {
        block_all(items.drop_last(), mode) + items.last().block(mode)
    }
}

/// Appends the blocks of all `items` to `out`.
pub fn push_block_all<T: Block>(out: &mut String, items: &Vec<T>, mode: &str)
    ensures
        final(out)@ == old(out)@ + block_all(items@, mode@),
{
    let mut i: usize = 0;
    assert(out@ =~= old(out)@ + block_all(items@.take(0), mode@));
    while i < items.len()
        invariant
            0 <= i <= items@.len(),
            out@ == old(out)@ + block_all(items@.take(i as int), mode@),
        decreases items@.len() - i,
    {
        items[i].push_block(out, mode);
        proof {
            assert(items@.take(i as int + 1).drop_last() =~= items@.take(i as int));
            assert(out@ =~= old(out)@ + block_all(items@.take(i as int + 1), mode@));
        }
        i += 1;
    }
    assert(items@.take(items@.len() as int) =~= items@);
}

} // verus!
