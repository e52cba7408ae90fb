//! The keys under which records are stored.
//!
//! A key is the height, written in decimal and padded with zeros to twelve
//! digits, then the kind of the message, the block's time and the identifier
//! of the transaction, with a colon between each two. The padding makes the
//! keys of a lower block sort before those of a higher one.

use vstd::prelude::*;
use vstd::string::*;

verus! {

/// The number of digits to which the height at the front of a key is padded.
pub const KEY_HEIGHT_WIDTH: usize = 12;

/// The first height that the padded width no longer holds: ten to the power
/// of [`KEY_HEIGHT_WIDTH`].
pub const KEY_HEIGHT_LIMIT: u64 = 1_000_000_000_000;

/// The two kinds of message that are stored.
#[derive(Clone, Copy, Debug, PartialEq, Eq, Structural)]
pub enum MessageKind {
    Send,
    IbcTransfer,
}

impl MessageKind {
    /// The name of the kind inside a key.
    pub open spec fn tag_of(self) -> Seq<char> {
        match self {
            MessageKind::Send => "msgSend"@,
            MessageKind::IbcTransfer => "msgIbcTransfer"@,
        }
    }

    pub fn tag(self) -> (t: &'static str)
        ensures
            t@ == self.tag_of(),
    {
        match self {
            MessageKind::Send => "msgSend",
            MessageKind::IbcTransfer => "msgIbcTransfer",
        }
    }
}

/// The character of the decimal digit `d`.
pub open spec fn digit_char(d: nat) -> char
    recommends
        d < 10,
{
    ((48 + d) as u8) as char
}

/// `n` in decimal, without leading zeros.
pub open spec fn decimal(n: nat) -> Seq<char>
    decreases n,
{
    if n < 10 {
        seq![digit_char(n)]
    } else {
        decimal(n / 10).push(digit_char(n % 10))
    }
}

/// `count` zeros.
pub open spec fn zeros(count: nat) -> Seq<char> {
    Seq::new(count, |i: int| '0')
}

/// `n` in decimal, with zeros in front where it has fewer than `width`
/// digits. A number with more digits is written in full.
pub open spec fn zero_padded(n: nat, width: nat) -> Seq<char> {
    if decimal(n).len() >= width {
        decimal(n)
    } else {
        zeros((width - decimal(n).len()) as nat) + decimal(n)
    }
}

/// `v` in decimal, with a minus sign in front where it is negative.
pub open spec fn signed_decimal(v: int) -> Seq<char> {
    if v < 0 {
        seq!['-'] + decimal((-v) as nat)
    } else {
        decimal(v as nat)
    }
}

/// The key of the record of a message of kind `kind`, found at `height` in a
/// block of time `timestamp`, in the transaction with identifier `tx_id`.
pub open spec fn key_text(height: u64, kind: MessageKind, timestamp: i64, tx_id: Seq<char>) -> Seq<
    char,
> {
    zero_padded(height as nat, KEY_HEIGHT_WIDTH as nat) + seq![':'] + kind.tag_of() + seq![':']
        + signed_decimal(timestamp as int) + seq![':'] + tx_id
}

/// Ten to the power of `k`.
pub open spec fn pow10(k: nat) -> nat
    decreases k,
{
    if k == 0 {
        1
    } else {
        10 * pow10((k - 1) as nat)
    }
}

/// `n` modulo ten to the power of `width`, in exactly `width` digits.
pub open spec fn fixed_width(n: nat, width: nat) -> Seq<char>
    decreases width,
{
    if width == 0 {
        Seq::empty()
    } else {
        fixed_width(n / 10, (width - 1) as nat).push(digit_char(n % 10))
    }
}

/// `a` comes before `b` in the order of their characters, and `i` is where
/// that shows: the two agree before `i`, and at `i` either `a` ends while `b`
/// goes on, or `a` has the lower character.
pub open spec fn splits_at(a: Seq<char>, b: Seq<char>, i: int) -> bool {
    &&& 0 <= i <= a.len()
    &&& i <= b.len()
    &&& forall|j: int| 0 <= j < i ==> a[j] == b[j]
    &&& if i == a.len() {
        i < b.len()
    } else {
        i < b.len() && (a[i] as u32) < (b[i] as u32)
    }
}

/// `a` sorts strictly before `b`, character by character.
pub open spec fn sorts_before(a: Seq<char>, b: Seq<char>) -> bool {
    exists|i: int| splits_at(a, b, i)
}

fn digit_text(d: u8) -> (t: &'static str)
    requires
        d < 10,
    ensures
        t@ == seq![digit_char(d as nat)],
{
    proof {
        reveal_strlit("0");
        reveal_strlit("1");
        reveal_strlit("2");
        reveal_strlit("3");
        reveal_strlit("4");
        reveal_strlit("5");
        reveal_strlit("6");
        reveal_strlit("7");
        reveal_strlit("8");
        reveal_strlit("9");
    }
    let t: &'static str = match d {
        0 => "0",
        1 => "1",
        2 => "2",
        3 => "3",
        4 => "4",
        5 => "5",
        6 => "6",
        7 => "7",
        8 => "8",
        _ => "9",
    };
    assert(t@ =~= seq![digit_char(d as nat)]);
    t
}

/// Writes `n` in decimal at the end of `out`.
pub fn append_decimal(out: &mut String, n: u64)
    ensures
        final(out)@ == old(out)@ + decimal(n as nat),
    decreases n,
{
    if n >= 10 {
        append_decimal(out, n / 10);
    }
    out.append(digit_text((n % 10) as u8));
    assert(out@ =~= old(out)@ + decimal(n as nat));
}

/// Writes `v` in decimal at the end of `out`, with its sign where it is
/// negative.
pub fn append_signed_decimal(out: &mut String, v: i64)
    ensures
        final(out)@ == old(out)@ + signed_decimal(v as int),
{
    if v < 0 {
        proof {
            reveal_strlit("-");
        }
        out.append("-");
        let magnitude: u64 = ((-(v + 1)) as u64) + 1;
        append_decimal(out, magnitude);
        assert(out@ =~= old(out)@ + signed_decimal(v as int));
    } else {
        append_decimal(out, v as u64);
    }
}

proof fn lemma_decimal_len(n: nat, k: nat)
    requires
        k >= 1,
        n < pow10(k),
    ensures
        1 <= decimal(n).len() <= k,
    decreases k,
{
    reveal_with_fuel(pow10, 2);
    if n >= 10 {
        lemma_decimal_len(n / 10, (k - 1) as nat);
    }
}

/// The number of decimal digits of `n`.
pub fn decimal_len(n: u64) -> (len: usize)
    ensures
        len == decimal(n as nat).len(),
        1 <= len <= 20,
{
    proof {
        reveal_with_fuel(pow10, 21);
        lemma_decimal_len(n as nat, 20);
    }
    let mut len: usize = 1;
    let mut rest: u64 = n;
    while rest >= 10
        invariant
            1 <= len,
            decimal(n as nat).len() == decimal(rest as nat).len() + len - 1,
            decimal(n as nat).len() <= 20,
        decreases rest,
    {
        rest = rest / 10;
        len = len + 1;
    }
    len
}

/// Builds the key of a record. `tx_id` is the identifier of the transaction
/// that holds the message.
pub fn record_key(height: u64, kind: MessageKind, timestamp: i64, tx_id: &str) -> (key: String)
    ensures
        key@ == key_text(height, kind, timestamp, tx_id@),
{
    let len: usize = decimal_len(height);
    let mut key = String::new();
    let mut written: usize = len;
    while written < KEY_HEIGHT_WIDTH
        invariant
            len <= written,
            written == len || written <= KEY_HEIGHT_WIDTH,
            key@ == zeros((written - len) as nat),
        decreases KEY_HEIGHT_WIDTH - written,
    {
        proof {
            reveal_strlit("0");
        }
        key.append("0");
        written = written + 1;
        assert(key@ =~= zeros((written - len) as nat));
    }
    append_decimal(&mut key, height);
    assert(key@ =~= zero_padded(height as nat, KEY_HEIGHT_WIDTH as nat));
    proof {
        reveal_strlit(":");
    }
    key.append(":");
    key.append(kind.tag());
    key.append(":");
    append_signed_decimal(&mut key, timestamp);
    key.append(":");
    key.append(tx_id);
    assert(key@ =~= key_text(height, kind, timestamp, tx_id@));
    key
}

proof fn lemma_fixed_width_len(n: nat, width: nat)
    ensures
        fixed_width(n, width).len() == width,
    decreases width,
{
    if width > 0 {
        lemma_fixed_width_len(n / 10, (width - 1) as nat);
    }
}

proof fn lemma_fixed_width_zero(width: nat)
    ensures
        fixed_width(0, width) == zeros(width),
    decreases width,
{
    if width > 0 {
        lemma_fixed_width_zero((width - 1) as nat);
    }
    assert(fixed_width(0, width) =~= zeros(width));
}

/// Below ten to the power of `width`, padding to `width` gives exactly
/// `width` digits: those of `n`, place by place.
pub proof fn lemma_padded_is_fixed(n: nat, width: nat)
    requires
        width >= 1,
        n < pow10(width),
    ensures
        zero_padded(n, width) == fixed_width(n, width),
        zero_padded(n, width).len() == width,
    decreases width,
{
    reveal_with_fuel(pow10, 2);
    lemma_fixed_width_len(n, width);
    lemma_decimal_len(n, width);
    if n < 10 {
        lemma_fixed_width_zero((width - 1) as nat);
        assert(zero_padded(n, width) =~= fixed_width(n, width));
    } else {
        lemma_padded_is_fixed(n / 10, (width - 1) as nat);
        lemma_decimal_len(n / 10, (width - 1) as nat);
        assert(zero_padded(n, width) =~= fixed_width(n, width));
    }
}

/// Of two numbers below ten to the power of `width`, the lower has the lower
/// digit where their `width` digits first differ. The place is returned.
pub proof fn lemma_fixed_width_order(a: nat, b: nat, width: nat) -> (i: int)
    requires
        a < b,
        b < pow10(width),
    ensures
        0 <= i < width,
        forall|j: int| 0 <= j < i ==> fixed_width(a, width)[j] == fixed_width(b, width)[j],
        (fixed_width(a, width)[i] as u32) < (fixed_width(b, width)[i] as u32),
    decreases width,
{
    lemma_fixed_width_len(a / 10, (width - 1) as nat);
    lemma_fixed_width_len(b / 10, (width - 1) as nat);
    if a / 10 < b / 10 {
        lemma_fixed_width_order(a / 10, b / 10, (width - 1) as nat)
    } else {
        assert(a / 10 == b / 10);
        assert(a % 10 < b % 10);
        (width - 1) as int
    }
}

/// The keys of a lower block sort strictly before those of a higher block,
/// whatever their kinds, times and transactions, as long as both heights fit
/// the padded width.
pub proof fn lemma_keys_follow_heights(
    lower: u64,
    lower_kind: MessageKind,
    lower_time: i64,
    lower_id: Seq<char>,
    higher: u64,
    higher_kind: MessageKind,
    higher_time: i64,
    higher_id: Seq<char>,
)
    requires
        lower < higher,
        higher < KEY_HEIGHT_LIMIT,
    ensures
        sorts_before(
            key_text(lower, lower_kind, lower_time, lower_id),
            key_text(higher, higher_kind, higher_time, higher_id),
        ),
{
    reveal_with_fuel(pow10, 13);
    let width = KEY_HEIGHT_WIDTH as nat;
    lemma_padded_is_fixed(lower as nat, width);
    lemma_padded_is_fixed(higher as nat, width);
    let i = lemma_fixed_width_order(lower as nat, higher as nat, width);
    let a = key_text(lower, lower_kind, lower_time, lower_id);
    let b = key_text(higher, higher_kind, higher_time, higher_id);
    let low_digits = zero_padded(lower as nat, width);
    let high_digits = zero_padded(higher as nat, width);
    assert forall|j: int| 0 <= j < 12 implies a[j] == low_digits[j] && b[j] == high_digits[j] by {}
    assert(splits_at(a, b, i));
}

} // verus!
