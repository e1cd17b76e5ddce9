//! The identifiers of escrow transactions.
//!
//! An identifier is the text `escrow_`, the second of creation in decimal, an
//! underscore, and the transaction's serial number in decimal. The serial
//! number alone tells two identifiers apart, whatever the clock said.

use vstd::prelude::*;

verus! {

/// The character of a decimal digit.
pub open spec fn digit(d: nat) -> char {
    if d == 0 {
        '0'
    } else if d == 1 {
        '1'
    } else if d == 2 {
        '2'
    } else if d == 3 {
        '3'
    } else if d == 4 {
        '4'
    } else if d == 5 {
        '5'
    } else if d == 6 {
        '6'
    } else if d == 7 {
        '7'
    } else if d == 8 {
        '8'
    } else {
        '9'
    }
}

/// A natural number in decimal, without leading zeros.
pub open spec fn decimal(n: nat) -> Seq<char>
    decreases n,
{
    if n < 10 {
        seq![digit(n)]
    } else {
        decimal(n / 10).push(digit(n % 10))
    }
}

/// An integer in decimal, with a minus sign before a negative one.
pub open spec fn signed_decimal(i: int) -> Seq<char> {
    if i < 0 {
        seq!['-'] + decimal((-i) as nat)
    } else {
        decimal(i as nat)
    }
}

/// The text that every identifier starts with.
pub open spec fn id_prefix() -> Seq<char> {
    seq!['e', 's', 'c', 'r', 'o', 'w', '_']
}

/// The identifier of the transaction with the serial number `serial` that
/// was created in the second `secs`.
pub open spec fn escrow_id_text(secs: int, serial: nat) -> Seq<char> {
    id_prefix() + signed_decimal(secs) + seq!['_'] + decimal(serial)
}

/// Two digits with the same character are the same digit.
pub proof fn lemma_digit_injective(a: nat, b: nat)
    requires
        a < 10,
        b < 10,
        digit(a) == digit(b),
    ensures
        a == b,
{
}

/// A number in decimal has one character or more, two or more from ten on,
/// and no underscore among them.
pub proof fn lemma_decimal_digits(n: nat)
    ensures
        decimal(n).len() >= 1,
        n >= 10 ==> decimal(n).len() >= 2,
        forall|j: int| 0 <= j < decimal(n).len() ==> #[trigger] decimal(n)[j] != '_',
    decreases n,
{
    if n >= 10 {
        lemma_decimal_digits(n / 10);
    }
}

/// Two numbers with the same decimal text are the same number.
pub proof fn lemma_decimal_injective(a: nat, b: nat)
    requires
        decimal(a) == decimal(b),
    ensures
        a == b,
    decreases a,
{
    lemma_decimal_digits(a);
    lemma_decimal_digits(b);
    if a >= 10 && b >= 10 {
        let head_a = decimal(a / 10);
        let head_b = decimal(b / 10);
        assert(head_a == decimal(a).drop_last());
        assert(head_b == decimal(b).drop_last());
        assert(digit(a % 10) == decimal(a).last());
        assert(digit(b % 10) == decimal(b).last());
        lemma_decimal_injective(a / 10, b / 10);
        lemma_digit_injective(a % 10, b % 10);
    } else if a < 10 && b < 10 {
        assert(decimal(a)[0] == digit(a));
        assert(decimal(b)[0] == digit(b));
        lemma_digit_injective(a, b);
    }
}

/// Two identifiers with the same text have the same serial number.
pub proof fn lemma_id_tells_serial(secs_a: int, serial_a: nat, secs_b: int, serial_b: nat)
    requires
        escrow_id_text(secs_a, serial_a) == escrow_id_text(secs_b, serial_b),
    ensures
        serial_a == serial_b,
{
    let text = escrow_id_text(secs_a, serial_a);
    let other = escrow_id_text(secs_b, serial_b);
    let tail_a = decimal(serial_a);
    let tail_b = decimal(serial_b);
    let head_a = id_prefix() + signed_decimal(secs_a);
    let head_b = id_prefix() + signed_decimal(secs_b);
    lemma_decimal_digits(serial_a);
    lemma_decimal_digits(serial_b);
    assert(text.len() == head_a.len() + 1 + tail_a.len());
    assert(other.len() == head_b.len() + 1 + tail_b.len());
    assert(text[head_a.len() as int] == '_');
    assert(other[head_b.len() as int] == '_');
    assert forall|j: int| head_a.len() < j < text.len() implies text[j] != '_' by {
        assert(text[j] == tail_a[j - head_a.len() - 1]);
    }
    assert forall|j: int| head_b.len() < j < other.len() implies other[j] != '_' by {
        assert(other[j] == tail_b[j - head_b.len() - 1]);
    }
    assert(head_a.len() == head_b.len());
    assert forall|j: int| 0 <= j < tail_a.len() implies tail_a[j] == tail_b[j] by {
        assert(text[head_a.len() + 1 + j] == tail_a[j]);
        assert(other[head_b.len() + 1 + j] == tail_b[j]);
    }
    assert(tail_a =~= tail_b);
    lemma_decimal_injective(serial_a, serial_b);
}

/// Appends the character of the digit `d`.
fn append_digit(out: &mut String, d: u8)
    requires
        d < 10,
    ensures
        final(out)@ == old(out)@.push(digit(d as nat)),
{
    proof {
        reveal_strlit("0");
        reveal_strlit("1");
        reveal_strlit("2");
        reveal_strlit("3");
        reveal_strlit("4");
        reveal_strlit("5");
        reveal_strlit("6");
        reveal_strlit("7");
        reveal_strlit("8");
        reveal_strlit("9");
    }
    let text = if d == 0 {
        "0"
    } else if d == 1 {
        "1"
    } else if d == 2 {
        "2"
    } else if d == 3 {
        "3"
    } else if d == 4 {
        "4"
    } else if d == 5 {
        "5"
    } else if d == 6 {
        "6"
    } else if d == 7 {
        "7"
    } else if d == 8 {
        "8"
    } else {
        "9"
    };
    assert(text@ =~= seq![digit(d as nat)]);
    out.append(text);
    assert(out@ =~= old(out)@.push(digit(d as nat)));
}

/// Appends `n` in decimal.
fn append_decimal(out: &mut String, n: u64)
    ensures
        final(out)@ == old(out)@ + decimal(n as nat),
    decreases n,
{
    if n >= 10 {
        append_decimal(out, n / 10);
    }
    append_digit(out, (n % 10) as u8);
    assert(out@ =~= old(out)@ + decimal(n as nat));
}

/// Makes the identifier of the transaction with the serial number `serial`
/// that is created in the second `secs`.
pub fn escrow_id(secs: i64, serial: u64) -> (id: String)
    ensures
        id@ == escrow_id_text(secs as int, serial as nat),
{
    proof {
        reveal_strlit("escrow_");
        reveal_strlit("-");
        reveal_strlit("_");
    }
    let mut id = String::from_str("escrow_");
    assert(id@ =~= id_prefix());
    if secs < 0 {
        id.append("-");
        let magnitude: u64 = (-(secs + 1)) as u64 + 1;
        append_decimal(&mut id, magnitude);
        assert(id@ =~= id_prefix() + signed_decimal(secs as int));
    } else {
        append_decimal(&mut id, secs as u64);
    }
    id.append("_");
    append_decimal(&mut id, serial);
    assert(id@ =~= escrow_id_text(secs as int, serial as nat));
    id
}

} // verus!
