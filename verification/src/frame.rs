//! The frame of a snapshot: a line that names the format, then sections, each
//! a line with a label and the length of a payload, the payload, and a line
//! break. Lengths are written in decimal without leading zeros.

use vstd::prelude::*;

verus! {

/// Whether a byte is a decimal digit.
pub open spec fn is_digit(byte: u8) -> bool {
    48 <= byte <= 57
}

/// The decimal form of a number, without leading zeros.
pub open spec fn digits(n: nat) -> Seq<u8>
    decreases n,
{
    if n < 10 {
        seq![(48 + n) as u8]
    } else {
        digits(n / 10).push((48 + n % 10) as u8)
    }
}

/// A decimal form is not empty and consists of digits.
pub proof fn digits_are_digits(n: nat)
    ensures
        digits(n).len() >= 1,
        forall|i: int| 0 <= i < digits(n).len() ==> is_digit(#[trigger] digits(n)[i]),
    decreases n,
{
    if n >= 10 {
        digits_are_digits(n / 10);
    }
}

/// Only the decimal form of 0 starts with a zero.
pub proof fn digits_start(n: nat)
    ensures
        n < 10 ==> digits(n).len() == 1,
        n >= 10 ==> digits(n).len() >= 2,
        n >= 1 ==> digits(n)[0] != 48,
    decreases n,
{
    if n >= 10 {
        digits_start(n / 10);
        digits_are_digits(n / 10);
    }
}

/// A number whose decimal form starts with the decimal form of another is not
/// the smaller of the two. So two numbers with one decimal form are equal.
pub proof fn digits_grow(w: nat, n: nat)
    requires
        digits(w).is_prefix_of(digits(n)),
    ensures
        w <= n,
        digits(w) == digits(n) ==> w == n,
    decreases n,
{
    digits_start(w);
    digits_start(n);
    if n < 10 {
        assert(digits(w)[0] == digits(n)[0]);
    } else if digits(w).len() == digits(n).len() {
        assert(digits(w) =~= digits(n));
        assert(digits(w).drop_last() =~= digits(w / 10));
        assert(digits(n).drop_last() =~= digits(n / 10));
        assert(digits(w).last() == digits(n).last());
        digits_grow(w / 10, n / 10);
    } else {
        assert(digits(n).drop_last() =~= digits(n / 10));
        assert(digits(w).is_prefix_of(digits(n / 10)));
        digits_grow(w, n / 10);
    }
}

/// Appends the decimal form of a number.
pub fn push_decimal(out: &mut Vec<u8>, n: usize)
    ensures
        final(out)@ == old(out)@ + digits(n as nat),
    decreases n,
{
    if n >= 10 {
        push_decimal(out, n / 10);
    }
    let digit: u8 = (n % 10) as u8;
    out.push(48 + digit);
    assert(out@ =~= old(out)@ + digits(n as nat));
}

/// Whether a number in decimal form stands at `pos` and ends at `end`: it is
/// followed by a byte that is no digit, or by nothing.
pub open spec fn decimal_at(bytes: Seq<u8>, pos: int, end: int, n: nat) -> bool {
    &&& 0 <= pos <= end <= bytes.len()
    &&& bytes.subrange(pos, end) == digits(n)
    &&& end < bytes.len() ==> !is_digit(bytes[end])
}

/// Reads the number in decimal form that stands at `pos`, and says where it
/// ends. There is none where no digit stands at `pos`, where the digits start
/// with a needless zero, and where the number does not fit the machine.
pub fn read_decimal(bytes: &[u8], pos: usize) -> (found: Option<(usize, usize)>)
    requires
        pos <= bytes@.len(),
    ensures
        found matches Some((n, end)) ==> decimal_at(bytes@, pos as int, end as int, n as nat),
        forall|n: nat, end: int| #[trigger]
            decimal_at(bytes@, pos as int, end, n) && n <= usize::MAX ==> found == Some(
                (n as usize, end as usize),
            ),
{
    let len = bytes.len();
    if pos >= len || bytes[pos] < 48 || bytes[pos] > 57 {
        proof {
            assert forall|n: nat, end: int| #[trigger]
                decimal_at(bytes@, pos as int, end, n) implies false by {
                digits_are_digits(n);
                assert(bytes@.subrange(pos as int, end)[0] == digits(n)[0]);
            }
        }
        return None;
    }
    let mut value: usize = (bytes[pos] - 48) as usize;
    let mut i: usize = pos + 1;
    assert(bytes@.subrange(pos as int, i as int) =~= digits(value as nat));
    while i < len && 48 <= bytes[i] && bytes[i] <= 57
        invariant
            len == bytes@.len(),
            pos < i <= len,
            bytes@.subrange(pos as int, i as int) == digits(value as nat),
            forall|k: int| pos <= k < i ==> is_digit(#[trigger] bytes@[k]),
        decreases len - i,
    {
        let digit: usize = (bytes[i] - 48) as usize;
        let ghost run = bytes@.subrange(pos as int, i + 1);
        proof {
            assert(run.drop_last() =~= bytes@.subrange(pos as int, i as int));
        }
        if value == 0 {
            proof {
                assert forall|n: nat, end: int| #[trigger]
                    decimal_at(bytes@, pos as int, end, n) implies false by {
                    digits_are_digits(n);
                    digits_start(n);
                    let found = bytes@.subrange(pos as int, end);
                    assert(found[0] == bytes@[pos as int]);
                    assert(digits(0)[0] == 48);
                    assert(bytes@.subrange(pos as int, i as int)[0] == bytes@[pos as int]);
                    if end > i {
                        assert(n >= 10);
                    } else {
                        assert(end == i);
                        assert(is_digit(bytes@[end]));
                    }
                }
            }
            return None;
        }
        if value > (usize::MAX - digit) / 10 {
            proof {
                let more: nat = (value * 10 + digit) as nat;
                assert(more > usize::MAX);
                assert(digits(more) =~= run) by {
                    assert(more / 10 == value && more % 10 == digit);
                }
                assert forall|n: nat, end: int| #[trigger]
                    decimal_at(bytes@, pos as int, end, n) && n <= usize::MAX implies false by {
                    digits_are_digits(n);
                    let found = bytes@.subrange(pos as int, end);
                    if end <= i {
                        assert(is_digit(bytes@[end]));
                    } else {
                        assert(run =~= found.subrange(0, run.len() as int));
                        assert(run.is_prefix_of(found));
                        digits_grow(more, n);
                    }
                }
            }
            return None;
        }
        proof {
            let more: nat = (value * 10 + digit) as nat;
            assert(digits(more) =~= run) by {
                assert(more / 10 == value && more % 10 == digit);
            }
        }
        value = value * 10 + digit;
        i += 1;
    }
    proof {
        assert forall|n: nat, end: int| #[trigger]
            decimal_at(bytes@, pos as int, end, n) && n <= usize::MAX implies n == value && end
            == i by {
            digits_are_digits(n);
            let found = bytes@.subrange(pos as int, end);
            if end < i {
                assert(is_digit(bytes@[end]));
            } else if end > i {
                assert(found[i - pos] == bytes@[i as int]);
                assert(is_digit(digits(n)[i - pos]));
            } else {
                digits_grow(value as nat, n);
            }
        }
    }
    Some((value, i))
}

/// A section: the label, a space, the length of the payload, a line break,
/// the payload, and a line break.
pub open spec fn section(label: Seq<u8>, payload: Seq<u8>) -> Seq<u8> {
    label + seq![32u8] + digits(payload.len()) + seq![10u8] + payload + seq![10u8]
}

/// Where the parts of a section stand that starts at `pos`.
pub proof fn section_positions(bytes: Seq<u8>, pos: int, label: Seq<u8>, payload: Seq<u8>)
    requires
        0 <= pos <= bytes.len(),
        section(label, payload).is_prefix_of(bytes.skip(pos)),
    ensures
        ({
            let number = pos + label.len() + 1;
            let start = number + digits(payload.len()).len() + 1;
            let end = start + payload.len();
            &&& end < bytes.len()
            &&& bytes.subrange(pos, pos + label.len()) == label
            &&& bytes[pos + label.len()] == 32
            &&& decimal_at(bytes, number, start - 1, payload.len())
            &&& bytes[start - 1] == 10
            &&& bytes.subrange(start, end) == payload
            &&& bytes[end] == 10
        }),
{
    let whole = section(label, payload);
    let number = pos + label.len() + 1;
    let start = number + digits(payload.len()).len() + 1;
    let end = start + payload.len();
    assert(whole.len() == end + 1 - pos);
    assert forall|k: int| 0 <= k < whole.len() implies bytes[pos + k] == whole[k] by {
        assert(bytes.skip(pos)[k] == whole[k]);
    }
    assert(bytes.subrange(pos, pos + label.len()) =~= label) by {
        assert forall|k: int| 0 <= k < label.len() implies bytes[pos + k] == label[k] by {
            assert(whole[k] == label[k]);
        }
    }
    assert(whole[label.len() as int] == 32);
    assert(bytes.subrange(number, start - 1) =~= digits(payload.len())) by {
        assert forall|k: int| 0 <= k < digits(payload.len()).len() implies bytes[number + k]
            == digits(payload.len())[k] by {
            assert(whole[number - pos + k] == digits(payload.len())[k]);
        }
    }
    assert(whole[start - 1 - pos] == 10);
    assert(bytes.subrange(start, end) =~= payload) by {
        assert forall|k: int| 0 <= k < payload.len() implies bytes[start + k] == payload[k] by {
            assert(whole[start - pos + k] == payload[k]);
        }
    }
    assert(whole[end - pos] == 10);
}

/// Appends the bytes of a slice.
fn push_bytes(out: &mut Vec<u8>, bytes: &[u8])
    ensures
        final(out)@ == old(out)@ + bytes@,
{
    let mut i: usize = 0;
    while i < bytes.len()
        invariant
            i <= bytes@.len(),
            out@ == old(out)@ + bytes@.subrange(0, i as int),
        decreases bytes@.len() - i,
    {
        out.push(bytes[i]);
        i += 1;
        assert(out@ =~= old(out)@ + bytes@.subrange(0, i as int));
    }
    assert(bytes@.subrange(0, i as int) =~= bytes@);
}

/// Appends a section.
pub fn push_section(out: &mut Vec<u8>, label: &[u8], payload: &[u8])
    ensures
        final(out)@ == old(out)@ + section(label@, payload@),
{
    push_bytes(out, label);
    out.push(32);
    push_decimal(out, payload.len());
    out.push(10);
    push_bytes(out, payload);
    out.push(10);
    assert(out@ =~= old(out)@ + section(label@, payload@));
}

/// Whether `expected` stands at `pos`.
pub fn stands_at(bytes: &[u8], pos: usize, expected: &[u8]) -> (found: bool)
    requires
        pos <= bytes@.len(),
    ensures
        found == (pos + expected@.len() <= bytes@.len() && bytes@.subrange(
            pos as int,
            pos + expected@.len(),
        ) == expected@),
{
    let len = bytes.len();
    if expected.len() > len - pos {
        return false;
    }
    let mut k: usize = 0;
    while k < expected.len()
        invariant
            len == bytes@.len(),
            pos + expected@.len() <= bytes@.len(),
            k <= expected@.len(),
            forall|j: int| 0 <= j < k ==> bytes@[pos + j] == expected@[j],
        decreases expected@.len() - k,
    {
        if bytes[pos + k] != expected[k] {
            assert(bytes@.subrange(pos as int, pos + expected@.len())[k as int] == bytes@[pos
                + k]);
            return false;
        }
        k += 1;
    }
    assert(bytes@.subrange(pos as int, pos + expected@.len()) =~= expected@);
    true
}

/// Reads the section with the given label that starts at `pos`, and says
/// where its payload starts and ends; the next section starts one byte after
/// that end. There is none where the bytes at `pos` are not a section with
/// this label.
pub fn read_section(bytes: &[u8], pos: usize, label: &[u8]) -> (found: Option<(usize, usize)>)
    requires
        pos <= bytes@.len(),
    ensures
        found matches Some((start, end)) ==> pos <= start <= end < bytes@.len()
            && bytes@.subrange(pos as int, end + 1) == section(
            label@,
            bytes@.subrange(start as int, end as int),
        ),
        forall|payload: Seq<u8>| #[trigger]
            section(label@, payload).is_prefix_of(bytes@.skip(pos as int)) ==> (
            found matches Some((start, end)) && bytes@.subrange(start as int, end as int)
                == payload),
{
    let len = bytes.len();
    proof {
        assert forall|payload: Seq<u8>| #[trigger]
            section(label@, payload).is_prefix_of(bytes@.skip(pos as int)) implies ({
            let number = pos + label@.len() + 1;
            let start = number + digits(payload.len()).len() + 1;
            let end = start + payload.len();
            &&& end < bytes@.len()
            &&& bytes@.subrange(pos as int, pos + label@.len()) == label@
            &&& bytes@[pos + label@.len()] == 32
            &&& decimal_at(bytes@, number, start - 1, payload.len())
            &&& bytes@[start - 1] == 10
            &&& bytes@.subrange(start, end) == payload
            &&& bytes@[end] == 10
        }) by {
            section_positions(bytes@, pos as int, label@, payload);
        }
    }
    if !stands_at(bytes, pos, label) {
        return None;
    }
    let space: usize = pos + label.len();
    if space >= len || bytes[space] != 32 {
        return None;
    }
    let number: usize = space + 1;
    let (size, line_end) = match read_decimal(bytes, number) {
        Some(read) => read,
        None => {
            return None;
        },
    };
    if line_end >= len || bytes[line_end] != 10 {
        return None;
    }
    let start: usize = line_end + 1;
    if size >= len - start {
        return None;
    }
    let end: usize = start + size;
    if bytes[end] != 10 {
        return None;
    }
    proof {
        let payload = bytes@.subrange(start as int, end as int);
        assert(bytes@.subrange(pos as int, end + 1) =~= section(label@, payload)) by {
            assert(bytes@.subrange(pos as int, end + 1) =~= bytes@.subrange(
                pos as int,
                pos + label@.len(),
            ) + seq![32u8] + bytes@.subrange(number as int, line_end as int) + seq![10u8]
                + payload + seq![10u8]);
        }
    }
    Some((start, end))
}

/// At most one number in decimal form stands at a position.
pub proof fn decimal_is_unique(bytes: Seq<u8>, pos: int, end: int, n: nat, other_end: int, m: nat)
    requires
        decimal_at(bytes, pos, end, n),
        decimal_at(bytes, pos, other_end, m),
    ensures
        end == other_end,
        n == m,
{
    digits_are_digits(n);
    digits_are_digits(m);
    let found = bytes.subrange(pos, end);
    let other = bytes.subrange(pos, other_end);
    if end < other_end {
        assert(other[end - pos] == bytes[end]);
        assert(is_digit(digits(m)[end - pos]));
    } else if other_end < end {
        assert(found[other_end - pos] == bytes[other_end]);
        assert(is_digit(digits(n)[other_end - pos]));
    } else {
        digits_grow(n, m);
    }
}

/// At most one section with a given label starts at a position.
pub proof fn payload_is_unique(
    bytes: Seq<u8>,
    pos: int,
    label: Seq<u8>,
    payload: Seq<u8>,
    other: Seq<u8>,
)
    requires
        0 <= pos <= bytes.len(),
        section(label, payload).is_prefix_of(bytes.skip(pos)),
        section(label, other).is_prefix_of(bytes.skip(pos)),
    ensures
        payload == other,
{
    let number = pos + label.len() + 1;
    section_positions(bytes, pos, label, payload);
    section_positions(bytes, pos, label, other);
    decimal_is_unique(
        bytes,
        number,
        number + digits(payload.len()).len(),
        payload.len(),
        number + digits(other.len()).len(),
        other.len(),
    );
}

} // verus!
