//! Runtime semantics of the boundary conversions the facade emits: the
//! textual interchange form that non-scalar, non-byte-array shapes use to
//! cross the native boundary, and the boolean-as-int argument encoding.
//!
//! The interchange form of an integer list is a bracketed, comma-separated
//! list of canonical decimal texts. `encode_int_list` and
//! `decode_int_list` are exact inverses: decoding an encoding yields the
//! original list, identical in length and order.

use vstd::prelude::*;
use crate::text::{split_commas, split_commas_list, views_match};

verus! {

/// The decimal digit character for `d`.
pub open spec fn digit_char(d: int) -> char {
    if d == 0 {
        '0'
    } else if d == 1 {
        '1'
    } else if d == 2 {
        '2'
    } else if d == 3 {
        '3'
    } else if d == 4 {
        '4'
    } else if d == 5 {
        '5'
    } else if d == 6 {
        '6'
    } else if d == 7 {
        '7'
    } else if d == 8 {
        '8'
    } else {
        '9'
    }
}

/// The value of a decimal digit character, or -1 for any other character.
pub open spec fn digit_val(c: char) -> int {
    if c == '0' {
        0
    } else if c == '1' {
        1
    } else if c == '2' {
        2
    } else if c == '3' {
        3
    } else if c == '4' {
        4
    } else if c == '5' {
        5
    } else if c == '6' {
        6
    } else if c == '7' {
        7
    } else if c == '8' {
        8
    } else if c == '9' {
        9
    } else {
        -1
    }
}

pub open spec fn is_digit(c: char) -> bool {
    digit_val(c) >= 0
}

/// The decimal digits of `n`, most significant first.
pub open spec fn dec_digits(n: nat) -> Seq<char>
    decreases n,
{
    if n < 10 {
        seq![digit_char(n as int)]
    } else {
        dec_digits(n / 10).push(digit_char((n % 10) as int))
    }
}

/// The canonical decimal text of an integer.
pub open spec fn int_text(n: int) -> Seq<char> {
    if n < 0 {
        seq!['-'] + dec_digits((-n) as nat)
    } else {
        dec_digits(n as nat)
    }
}

/// The comma-joined texts of the items.
pub open spec fn items_text(v: Seq<i64>) -> Seq<char>
    decreases v.len(),
{
    if v.len() == 0 {
        Seq::<char>::empty()
    } else if v.len() == 1 {
        int_text(v[0] as int)
    } else {
        items_text(v.drop_last()) + seq![','] + int_text(v.last() as int)
    }
}

/// The interchange encoding of an integer list.
pub open spec fn encode_ints(v: Seq<i64>) -> Seq<char> {
    seq!['['] + items_text(v) + seq![']']
}

pub open spec fn all_digits(ds: Seq<char>) -> bool {
    forall|i: int| 0 <= i < ds.len() ==> is_digit(#[trigger] ds[i])
}

/// The value of a digit sequence, most significant first.
pub open spec fn digits_val(ds: Seq<char>) -> int
    decreases ds.len(),
{
    if ds.len() == 0 {
        0
    } else {
        10 * digits_val(ds.drop_last()) + digit_val(ds.last())
    }
}

/// A canonical digit sequence: nonempty, digits only, no leading zero.
pub open spec fn digits_canonical(ds: Seq<char>) -> bool {
    &&& ds.len() >= 1
    &&& all_digits(ds)
    &&& (ds.len() > 1 ==> ds[0] != '0')
}

/// Parsing one canonical integer text; rejects anything but the exact
/// canonical form of an integer in `i64` range.
pub open spec fn parse_int(p: Seq<char>) -> Option<i64> {
    if p.len() >= 1 && p[0] == '-' {
        let ds = p.subrange(1, p.len() as int);
        if digits_canonical(ds) && 1 <= digits_val(ds) <= 0x8000_0000_0000_0000 {
            Some((-digits_val(ds)) as i64)
        } else {
            None
        }
    } else {
        if digits_canonical(p) && digits_val(p) <= 0x7fff_ffff_ffff_ffff {
            Some(digits_val(p) as i64)
        } else {
            None
        }
    }
}

/// Parsing one interchange text: brackets around a comma-separated list
/// of canonical integer texts; `[]` is the empty list.
pub open spec fn decode_text(s: Seq<char>) -> Option<Seq<i64>> {
    if s.len() < 2 || s[0] != '[' || s.last() != ']' {
        None
    } else {
        let inner = s.subrange(1, s.len() - 1);
        if inner.len() == 0 {
            Some(Seq::<i64>::empty())
        } else {
            let pieces = split_commas(inner);
            if forall|i: int| 0 <= i < pieces.len() ==> (#[trigger] parse_int(pieces[i])) is Some {
                Some(Seq::new(pieces.len(), |i: int| parse_int(pieces[i])->Some_0))
            } else {
                None
            }
        }
    }
}

pub open spec fn pow10(k: nat) -> int
    decreases k,
{
    if k == 0 {
        1
    } else {
        10 * pow10((k - 1) as nat)
    }
}

proof fn lemma_pow10_pos(k: nat)
    ensures
        pow10(k) >= 1,
    decreases k,
{
    if k > 0 {
        lemma_pow10_pos((k - 1) as nat);
    }
}

proof fn lemma_pow10_mono(a: nat, b: nat)
    requires
        a <= b,
    ensures
        pow10(a) <= pow10(b),
    decreases b,
{
    if a < b {
        lemma_pow10_mono(a, (b - 1) as nat);
        lemma_pow10_pos((b - 1) as nat);
    }
}

/// Digit sequences are bounded by the power of ten of their length.
proof fn lemma_digits_val_bounds(ds: Seq<char>)
    requires
        all_digits(ds),
    ensures
        0 <= digits_val(ds) < pow10(ds.len() as nat),
    decreases ds.len(),
{
    if ds.len() > 0 {
        assert(all_digits(ds.drop_last())) by {
            assert(forall|i: int|
                0 <= i < ds.len() - 1 ==> ds.drop_last()[i] == #[trigger] ds[i]);
        }
        lemma_digits_val_bounds(ds.drop_last());
    }
}

/// A digit sequence without a leading zero reaches the power of ten of
/// one less than its length.
proof fn lemma_digits_val_lower(ds: Seq<char>)
    requires
        all_digits(ds),
        ds.len() >= 1,
        ds[0] != '0',
    ensures
        digits_val(ds) >= pow10((ds.len() - 1) as nat),
    decreases ds.len(),
{
    if ds.len() == 1 {
        assert(is_digit(ds[0]));
        assert(ds.drop_last() =~= Seq::<char>::empty());
        assert(digits_val(Seq::<char>::empty()) == 0);
        assert(ds.last() == ds[0]);
        assert(digits_val(ds) == digit_val(ds[0]));
        assert(digit_val(ds[0]) >= 1);
        assert(pow10(0) == 1);
    } else {
        assert(all_digits(ds.drop_last())) by {
            assert(forall|i: int|
                0 <= i < ds.len() - 1 ==> ds.drop_last()[i] == #[trigger] ds[i]);
        }
        assert(ds.drop_last()[0] == ds[0]);
        lemma_digits_val_lower(ds.drop_last());
        assert(is_digit(ds.last()));
        assert(digit_val(ds.last()) >= 0);
        assert(digits_val(ds) == 10 * digits_val(ds.drop_last()) + digit_val(ds.last()));
        assert(pow10((ds.len() - 1) as nat) == 10 * pow10((ds.len() - 2) as nat));
    }
}

proof fn lemma_pow10_19()
    ensures
        pow10(19) == 10_000_000_000_000_000_000,
{
    reveal_with_fuel(pow10, 21);
}

/// The decimal digits of `n` are canonical and carry the value `n`.
proof fn lemma_dec_digits(n: nat)
    ensures
        dec_digits(n).len() >= 1,
        all_digits(dec_digits(n)),
        digits_val(dec_digits(n)) == n,
        dec_digits(n)[0] == '0' <==> n == 0,
        n < 10 <==> dec_digits(n).len() == 1,
    decreases n,
{
    if n < 10 {
        assert(digit_val(digit_char(n as int)) == n);
        let ds = dec_digits(n);
        assert(ds == seq![digit_char(n as int)]);
        assert(ds.drop_last() =~= Seq::<char>::empty());
        assert(digits_val(Seq::<char>::empty()) == 0);
        assert(ds.last() == digit_char(n as int));
        assert(digits_val(ds) == digit_val(digit_char(n as int)));
    } else {
        lemma_dec_digits(n / 10);
        let prefix = dec_digits(n / 10);
        let ds = dec_digits(n);
        assert(ds == prefix.push(digit_char((n % 10) as int)));
        assert(ds.drop_last() =~= prefix);
        assert(ds.last() == digit_char((n % 10) as int));
        assert(digit_val(digit_char((n % 10) as int)) == n % 10);
        assert(digits_val(ds) == 10 * (n / 10) + n % 10);
        assert(all_digits(ds)) by {
            assert(forall|i: int|
                0 <= i < prefix.len() ==> ds[i] == #[trigger] prefix[i]);
            assert(is_digit(ds[ds.len() - 1]));
        }
        assert(ds[0] == prefix[0]);
    }
}

/// The canonical text of any `i64` parses back to exactly that value.
pub proof fn lemma_parse_int_text(x: i64)
    ensures
        int_text(x as int).len() >= 1,
        parse_int(int_text(x as int)) == Some(x),
{
    if x >= 0 {
        let ds = dec_digits(x as nat);
        lemma_dec_digits(x as nat);
        assert(is_digit(ds[0]));
        assert(ds[0] != '-');
        assert(digits_canonical(ds));
        assert(digits_val(ds) == x as int <= 0x7fff_ffff_ffff_ffff);
        assert(int_text(x as int) == ds);
    } else {
        let m = (-(x as int)) as nat;
        let ds = dec_digits(m);
        lemma_dec_digits(m);
        let p = int_text(x as int);
        assert(p == seq!['-'] + ds);
        assert(p[0] == '-');
        assert(p.subrange(1, p.len() as int) =~= ds);
        assert(digits_canonical(ds));
        assert(1 <= digits_val(ds) <= 0x8000_0000_0000_0000);
        assert((-digits_val(ds)) as i64 == x);
    }
}

/// No comma occurs in a canonical integer text.
pub open spec fn comma_free(s: Seq<char>) -> bool {
    forall|i: int| 0 <= i < s.len() ==> (#[trigger] s[i]) != ','
}

proof fn lemma_dec_digits_comma_free(n: nat)
    ensures
        comma_free(dec_digits(n)),
    decreases n,
{
    if n < 10 {
    } else {
        lemma_dec_digits_comma_free(n / 10);
        let prefix = dec_digits(n / 10);
        let ds = dec_digits(n);
        assert(forall|i: int| 0 <= i < prefix.len() ==> ds[i] == #[trigger] prefix[i]);
        assert(ds[ds.len() - 1] == digit_char((n % 10) as int));
    }
}

proof fn lemma_int_text_comma_free(x: i64)
    ensures
        comma_free(int_text(x as int)),
{
    if x >= 0 {
        lemma_dec_digits_comma_free(x as nat);
    } else {
        let m = (-(x as int)) as nat;
        lemma_dec_digits_comma_free(m);
        let p = int_text(x as int);
        assert(forall|i: int|
            1 <= i < p.len() ==> (#[trigger] p[i]) == dec_digits(m)[i - 1]);
        assert(p[0] == '-');
    }
}

/// Appending comma-free text extends the last piece of a split.
proof fn lemma_split_append_comma_free(x: Seq<char>, y: Seq<char>)
    requires
        comma_free(y),
    ensures
        split_commas(x + y).len() == split_commas(x).len(),
        split_commas(x + y) == split_commas(x).update(
            split_commas(x).len() - 1,
            split_commas(x).last() + y,
        ),
    decreases y.len(),
{
    crate::text::lemma_split_commas_len(x);
    if y.len() == 0 {
        assert(x + y =~= x);
        assert(split_commas(x).last() + y =~= split_commas(x).last());
        assert(split_commas(x).update(
            split_commas(x).len() - 1,
            split_commas(x).last() + y,
        ) =~= split_commas(x));
    } else {
        let y0 = y.drop_last();
        let c = y.last();
        assert(comma_free(y0)) by {
            assert(forall|i: int| 0 <= i < y0.len() ==> y0[i] == #[trigger] y[i]);
        }
        lemma_split_append_comma_free(x, y0);
        let q = x + y;
        assert(q.len() > 0);
        assert(q.drop_last() =~= x + y0);
        assert(q.last() == c);
        assert(c != ',');
        let s0 = split_commas(x);
        let s1 = split_commas(x + y0);
        assert(split_commas(q) == s1.update(s1.len() - 1, s1.last().push(c)));
        assert(s1.last() == s0.last() + y0);
        assert((s0.last() + y0).push(c) =~= s0.last() + y);
        assert(s1.update(s1.len() - 1, s1.last().push(c)) =~= s0.update(
            s0.len() - 1,
            s0.last() + y,
        ));
    }
}

/// Appending a comma closes the last piece and opens an empty one.
proof fn lemma_split_append_comma(x: Seq<char>)
    ensures
        split_commas(x + seq![',']) == split_commas(x).push(Seq::<char>::empty()),
{
    let q = x + seq![','];
    assert(q.len() > 0);
    assert(q.drop_last() =~= x);
    assert(q.last() == ',');
}

/// The per-item texts of a list.
pub open spec fn item_texts(v: Seq<i64>) -> Seq<Seq<char>> {
    Seq::new(v.len(), |i: int| int_text(v[i] as int))
}

/// Splitting the joined item texts recovers exactly the item texts.
proof fn lemma_split_items(v: Seq<i64>)
    requires
        v.len() >= 1,
    ensures
        split_commas(items_text(v)) == item_texts(v),
    decreases v.len(),
{
    if v.len() == 1 {
        let y = int_text(v[0] as int);
        lemma_int_text_comma_free(v[0]);
        lemma_split_append_comma_free(Seq::<char>::empty(), y);
        assert(Seq::<char>::empty() + y =~= y);
        assert(items_text(v) == y);
        assert(split_commas(Seq::<char>::empty()) == seq![Seq::<char>::empty()]);
        assert(split_commas(y) == seq![Seq::<char>::empty()].update(
            0,
            Seq::<char>::empty() + y,
        ));
        assert(split_commas(y) =~= seq![y]);
        assert(item_texts(v) =~= seq![y]);
    } else {
        let dl = v.drop_last();
        let last_text = int_text(v.last() as int);
        lemma_split_items(dl);
        lemma_int_text_comma_free(v.last());
        let joined0 = items_text(dl);
        assert(items_text(v) == joined0 + seq![','] + last_text);
        lemma_split_append_comma(joined0);
        let s1 = split_commas(joined0 + seq![',']);
        assert(s1 == item_texts(dl).push(Seq::<char>::empty()));
        lemma_split_append_comma_free(joined0 + seq![','], last_text);
        assert((joined0 + seq![',']) + last_text =~= items_text(v));
        assert(split_commas(items_text(v)) == s1.update(s1.len() - 1, s1.last() + last_text));
        assert(s1.last() + last_text =~= last_text);
        assert(s1.update(s1.len() - 1, s1.last() + last_text) =~= item_texts(dl).push(
            last_text,
        ));
        assert(item_texts(dl).push(last_text) =~= item_texts(v));
    }
}

/// Joined item texts are never empty.
proof fn lemma_items_text_len(v: Seq<i64>)
    requires
        v.len() >= 1,
    ensures
        items_text(v).len() >= 1,
    decreases v.len(),
{
    if v.len() == 1 {
        lemma_parse_int_text(v[0]);
    } else {
        lemma_items_text_len(v.drop_last());
    }
}

/// Round trip: decoding an encoded integer list yields the original
/// list — identical length, identical order.
pub proof fn lemma_decode_encode(v: Seq<i64>)
    ensures
        decode_text(encode_ints(v)) == Some(v),
{
    let s = encode_ints(v);
    let items = items_text(v);
    assert(s.len() == items.len() + 2);
    assert(s[0] == '[');
    assert(s.last() == ']');
    let inner = s.subrange(1, s.len() - 1);
    assert(inner =~= items);
    if v.len() == 0 {
        assert(items.len() == 0);
        assert(decode_text(s) == Some(Seq::<i64>::empty()));
        assert(Seq::<i64>::empty() =~= v);
    } else {
        lemma_items_text_len(v);
        lemma_split_items(v);
        let pieces = split_commas(inner);
        assert(pieces == item_texts(v));
        assert(forall|i: int|
            0 <= i < pieces.len() ==> (#[trigger] parse_int(pieces[i])) is Some) by {
            assert forall|i: int|
                0 <= i < pieces.len() implies (#[trigger] parse_int(pieces[i])) is Some by {
                lemma_parse_int_text(v[i]);
            }
        }
        let out = Seq::new(pieces.len(), |i: int| parse_int(pieces[i])->Some_0);
        assert forall|i: int| 0 <= i < out.len() implies out[i] == v[i] by {
            lemma_parse_int_text(v[i]);
        }
        assert(out =~= v);
    }
}

/// Append one decimal digit character.
fn push_digit(s: &mut String, d: u64)
    requires
        d < 10,
    ensures
        final(s)@ == old(s)@ + seq![digit_char(d as int)],
{
    proof {
        reveal_strlit("0");
        reveal_strlit("1");
        reveal_strlit("2");
        reveal_strlit("3");
        reveal_strlit("4");
        reveal_strlit("5");
        reveal_strlit("6");
        reveal_strlit("7");
        reveal_strlit("8");
        reveal_strlit("9");
    }
    let t: &str = if d == 0 {
        "0"
    } else if d == 1 {
        "1"
    } else if d == 2 {
        "2"
    } else if d == 3 {
        "3"
    } else if d == 4 {
        "4"
    } else if d == 5 {
        "5"
    } else if d == 6 {
        "6"
    } else if d == 7 {
        "7"
    } else if d == 8 {
        "8"
    } else {
        "9"
    };
    proof {
        assert(t@ =~= seq![digit_char(d as int)]);
    }
    s.append(t);
}

/// Append the decimal digits of `n`.
fn push_u64(s: &mut String, n: u64)
    ensures
        final(s)@ == old(s)@ + dec_digits(n as nat),
    decreases n,
{
    if n < 10 {
        push_digit(s, n);
    } else {
        push_u64(s, n / 10);
        push_digit(s, n % 10);
        proof {
            assert((old(s)@ + dec_digits((n / 10) as nat)) + seq![
                digit_char((n % 10) as int),
            ] =~= old(s)@ + dec_digits(n as nat));
        }
    }
}

/// Append the canonical decimal text of `x`.
fn push_i64(s: &mut String, x: i64)
    ensures
        final(s)@ == old(s)@ + int_text(x as int),
{
    if x >= 0 {
        push_u64(s, x as u64);
    } else {
        proof {
            reveal_strlit("-");
        }
        s.append("-");
        let m: u64 = (-(x as i128)) as u64;
        push_u64(s, m);
        proof {
            assert("-"@ =~= seq!['-']);
            assert((old(s)@ + "-"@) + dec_digits(m as nat) =~= old(s)@ + int_text(x as int));
        }
    }
}

/// Encode an integer list into its interchange text, as the facade's
/// argument path does for boxed lists.
pub fn encode_int_list(v: &Vec<i64>) -> (r: String)
    ensures
        r@ == encode_ints(v@),
{
    let mut s = String::new();
    proof {
        reveal_strlit("[");
    }
    s.append("[");
    let ghost open = s@;
    proof {
        assert(open =~= seq!['[']);
        assert(items_text(v@.subrange(0, 0)) == Seq::<char>::empty());
        assert(s@ =~= seq!['['] + items_text(v@.subrange(0, 0)));
    }
    let n = v.len();
    for i in 0..n
        invariant
            n == v@.len(),
            s@ == seq!['['] + items_text(v@.subrange(0, i as int)),
    {
        let ghost pre = v@.subrange(0, i as int);
        let ghost post = v@.subrange(0, i + 1);
        proof {
            assert(post.drop_last() =~= pre);
            assert(post.last() == v@[i as int]);
        }
        if i > 0 {
            proof {
                reveal_strlit(",");
            }
            s.append(",");
            push_i64(&mut s, v[i]);
            proof {
                assert(","@ =~= seq![',']);
                assert(post.len() >= 2);
                assert(items_text(post) == items_text(pre) + seq![','] + int_text(
                    post.last() as int,
                ));
                assert(((seq!['['] + items_text(pre)) + ","@) + int_text(v@[i as int] as int)
                    =~= seq!['['] + items_text(post));
            }
        } else {
            push_i64(&mut s, v[i]);
            proof {
                assert(post.len() == 1);
                assert(items_text(post) == int_text(post[0] as int));
                assert(items_text(pre) == Seq::<char>::empty());
                assert((seq!['['] + items_text(pre)) + int_text(v@[i as int] as int) =~= seq![
                    '[',
                ] + items_text(post));
            }
        }
    }
    proof {
        reveal_strlit("]");
    }
    s.append("]");
    proof {
        assert(v@.subrange(0, n as int) =~= v@);
        assert("]"@ =~= seq![']']);
        assert((seq!['['] + items_text(v@)) + "]"@ =~= encode_ints(v@));
    }
    s
}

/// Parse one canonical integer text; exactly mirrors `parse_int`.
fn parse_int_str(p: &str) -> (r: Option<i64>)
    ensures
        r == parse_int(p@),
{
    let n = p.unicode_len();
    if n == 0 {
        return None;
    }
    let neg = p.get_char(0) == '-';
    let start: usize = if neg {
        1
    } else {
        0
    };
    let ghost ds = if neg {
        p@.subrange(1, n as int)
    } else {
        p@
    };
    proof {
        if neg {
            assert(ds.len() == n - 1);
        } else {
            assert(ds =~= p@);
        }
        assert(forall|j: int|
            0 <= j < ds.len() ==> (#[trigger] ds[j]) == p@[start + j]);
    }
    let m = n - start;
    if m == 0 {
        return None;
    }
    if m > 1 && p.get_char(start) == '0' {
        proof {
            assert(ds[0] == '0');
            assert(!digits_canonical(ds));
        }
        return None;
    }
    if m > 19 {
        proof {
            if digits_canonical(ds) {
                lemma_digits_val_lower(ds);
                lemma_pow10_mono(19, (ds.len() - 1) as nat);
                lemma_pow10_19();
            }
        }
        return None;
    }
    let mut val: u64 = 0;
    proof {
        assert(ds.subrange(0, 0) =~= Seq::<char>::empty());
        assert(digits_val(Seq::<char>::empty()) == 0);
    }
    for j in 0..m
        invariant
            n == p@.len(),
            start + m == n,
            start == if neg {
                1int
            } else {
                0int
            },
            neg ==> p@[0] == '-',
            !neg ==> (p@.len() == 0 || p@[0] != '-'),
            m >= 1,
            ds == (if neg {
                p@.subrange(1, n as int)
            } else {
                p@
            }),
            ds.len() == m,
            m <= 19,
            all_digits(ds.subrange(0, j as int)),
            val == digits_val(ds.subrange(0, j as int)),
            val < 0x8ac7_2304_89e8_0000,
    {
        let c = p.get_char(start + j);
        let d: u64 = if c == '0' {
            0
        } else if c == '1' {
            1
        } else if c == '2' {
            2
        } else if c == '3' {
            3
        } else if c == '4' {
            4
        } else if c == '5' {
            5
        } else if c == '6' {
            6
        } else if c == '7' {
            7
        } else if c == '8' {
            8
        } else if c == '9' {
            9
        } else {
            proof {
                assert(ds[j as int] == c);
                assert(!is_digit(ds[j as int]));
                assert(!all_digits(ds));
                assert(!digits_canonical(ds));
            }
            return None;
        };
        proof {
            assert(ds[j as int] == c);
            assert(digit_val(c) == d as int);
            let prefix = ds.subrange(0, j as int);
            let ext = ds.subrange(0, j + 1);
            assert(ext.drop_last() =~= prefix);
            assert(ext.last() == ds[j as int]);
            assert(all_digits(ext)) by {
                assert(forall|i: int|
                    0 <= i < prefix.len() ==> ext[i] == #[trigger] prefix[i]);
            }
            assert(digits_val(ext) == 10 * digits_val(prefix) + d as int);
            lemma_digits_val_bounds(prefix);
            assert(prefix.len() <= 18);
            lemma_pow10_mono(prefix.len() as nat, 18);
            lemma_pow10_19();
            assert(pow10(19) == 10 * pow10(18));
            lemma_digits_val_bounds(ext);
            lemma_pow10_mono(ext.len() as nat, 19);
        }
        val = 10 * val + d;
    }
    proof {
        assert(ds.subrange(0, m as int) =~= ds);
        assert(all_digits(ds));
        assert(val == digits_val(ds));
        assert(digits_canonical(ds));
    }
    if neg {
        if val == 0 {
            return None;
        }
        if val > 0x8000_0000_0000_0000u64 {
            return None;
        }
        let out: i64 = (-(val as i128)) as i64;
        proof {
            assert(out as int == -(val as int));
            assert(parse_int(p@) == Some((-digits_val(ds)) as i64));
        }
        Some(out)
    } else {
        if val > 0x7fff_ffff_ffff_ffffu64 {
            return None;
        }
        proof {
            assert(parse_int(p@) == Some(digits_val(ds) as i64));
        }
        Some(val as i64)
    }
}

/// Decode one interchange text into an integer list, as the facade's
/// return path does for boxed lists. Accepts exactly the canonical
/// encodings; decoding an `encode_int_list` result always succeeds and
/// yields the original list.
pub fn decode_int_list(s: &str) -> (r: Option<Vec<i64>>)
    ensures
        match r {
            Some(v) => decode_text(s@) == Some(v@),
            None => decode_text(s@) is None,
        },
{
    let n = s.unicode_len();
    if n < 2 {
        return None;
    }
    if s.get_char(0) != '[' {
        return None;
    }
    if s.get_char(n - 1) != ']' {
        return None;
    }
    let inner = s.substring_char(1, n - 1);
    proof {
        assert(inner@ == s@.subrange(1, s@.len() - 1));
    }
    if inner.is_empty() {
        let out: Vec<i64> = Vec::new();
        proof {
            assert(decode_text(s@) == Some(Seq::<i64>::empty()));
            assert(out@ =~= Seq::<i64>::empty());
        }
        return Some(out);
    }
    let pieces = split_commas_list(inner);
    let ghost sp = split_commas(inner@);
    let mut out: Vec<i64> = Vec::new();
    let k = pieces.len();
    proof {
        assert(views_match(pieces@, sp));
    }
    for i in 0..k
        invariant
            n == s@.len(),
            n >= 2,
            s@[0] == '[',
            s@.last() == ']',
            inner@ == s@.subrange(1, s@.len() - 1),
            inner@.len() > 0,
            sp == split_commas(inner@),
            views_match(pieces@, sp),
            k == pieces@.len(),
            out@.len() == i,
            forall|j: int|
                0 <= j < i ==> #[trigger] parse_int(sp[j]) == Some(out@[j]),
    {
        match parse_int_str(pieces[i].as_str()) {
            Some(val) => {
                proof {
                    assert(pieces@[i as int]@ == sp[i as int]);
                }
                out.push(val);
            },
            None => {
                proof {
                    assert(pieces@[i as int]@ == sp[i as int]);
                    assert(parse_int(sp[i as int]) is None);
                    assert(decode_text(s@) is None);
                }
                return None;
            },
        }
    }
    proof {
        assert(forall|j: int|
            0 <= j < sp.len() ==> (#[trigger] parse_int(sp[j])) is Some);
        let spec_out = Seq::new(sp.len(), |j: int| parse_int(sp[j])->Some_0);
        assert(out@ =~= spec_out);
        assert(decode_text(s@) == Some(spec_out));
    }
    Some(out)
}

/// The native-call encoding of a boolean argument: the int 1 for true and
/// 0 for false, never any other value.
pub fn bool_to_transfer(b: bool) -> (r: i32)
    ensures
        r == if b {
            1int
        } else {
            0int
        },
{
    if b {
        1
    } else {
        0
    }
}

} // verus!
