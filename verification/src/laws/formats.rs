//! Laws of the formats: text, JSON and what goes over the wire.
use vstd::prelude::*;

use crate::json;
use crate::json::Json;
use crate::proto;
use crate::text;

verus! {

/// The characters that are trimmed are the 25 that Unicode calls white space.
pub proof fn law_white_space(c: char)
    ensures
        text::is_white_space(c) <==> (seq![
            0x9u32, 0xa, 0xb, 0xc, 0xd, 0x20, 0x85, 0xa0, 0x1680, 0x2028, 0x2029, 0x202f, 0x205f, 0x3000,
        ].contains(c as u32) || seq![
            0x2000u32, 0x2001, 0x2002, 0x2003, 0x2004, 0x2005, 0x2006, 0x2007, 0x2008, 0x2009, 0x200a,
        ].contains(c as u32)),
{
    let a = seq![
        0x9u32, 0xa, 0xb, 0xc, 0xd, 0x20, 0x85, 0xa0, 0x1680, 0x2028, 0x2029, 0x202f, 0x205f, 0x3000,
    ];
    let b = seq![
        0x2000u32, 0x2001, 0x2002, 0x2003, 0x2004, 0x2005, 0x2006, 0x2007, 0x2008, 0x2009, 0x200a,
    ];
    let u = c as u32;
    if text::is_white_space(c) {
        assert(a[0] == u || a[1] == u || a[2] == u || a[3] == u || a[4] == u || a[5] == u || a[6] == u
            || a[7] == u || a[8] == u || a[9] == u || a[10] == u || a[11] == u || a[12] == u || a[13]
            == u || b[0] == u || b[1] == u || b[2] == u || b[3] == u || b[4] == u || b[5] == u || b[6]
            == u || b[7] == u || b[8] == u || b[9] == u || b[10] == u);
    }
}

/// What stays after trimming at the front begins with no white space, and only white space went.
proof fn lemma_trimmed_front(s: Seq<char>) -> (i: int)
    ensures
        0 <= i <= s.len(),
        text::trimmed_front(s) == s.skip(i),
        forall|k: int| 0 <= k < i ==> text::is_white_space(#[trigger] s[k]),
        i < s.len() ==> !text::is_white_space(s[i]),
    decreases s.len(),
{
    if s.len() > 0 && text::is_white_space(s.first()) {
        let i = lemma_trimmed_front(s.drop_first()) + 1;
        assert(s.drop_first().skip(i - 1) =~= s.skip(i));
        assert forall|k: int| 0 <= k < i implies text::is_white_space(#[trigger] s[k]) by {
            if k > 0 {
                assert(s.drop_first()[k - 1] == s[k]);
            }
        }
        i
    } else {
        assert(s.skip(0) =~= s);
        0
    }
}

/// What stays after trimming at the back ends in no white space, and only white space went.
proof fn lemma_trimmed_back(s: Seq<char>) -> (j: int)
    ensures
        0 <= j <= s.len(),
        text::trimmed_back(s) == s.take(j),
        forall|k: int| j <= k < s.len() ==> text::is_white_space(#[trigger] s[k]),
        0 < j ==> !text::is_white_space(s[j - 1]),
    decreases s.len(),
{
    if s.len() > 0 && text::is_white_space(s.last()) {
        let j = lemma_trimmed_back(s.drop_last());
        assert(s.drop_last().take(j) =~= s.take(j));
        assert forall|k: int| j <= k < s.len() implies text::is_white_space(#[trigger] s[k]) by {
            if k < s.len() - 1 {
                assert(s.drop_last()[k] == s[k]);
            }
        }
        j
    } else {
        assert(s.take(s.len() as int) =~= s);
        s.len() as int
    }
}

/// Trimming takes white space from both ends, all of it and nothing else: a text between white
/// space, which itself neither begins nor ends in any, is what stays.
pub proof fn law_trim_takes_white_space_only(front: Seq<char>, s: Seq<char>, back: Seq<char>)
    requires
        forall|k: int| 0 <= k < front.len() ==> text::is_white_space(#[trigger] front[k]),
        forall|k: int| 0 <= k < back.len() ==> text::is_white_space(#[trigger] back[k]),
        s.len() > 0 ==> !text::is_white_space(s.first()) && !text::is_white_space(s.last()),
    ensures
        text::trimmed(front + s + back) == s,
{
    let whole = front + s + back;
    let i = lemma_trimmed_front(whole);
    let mid = whole.skip(i);
    let j = lemma_trimmed_back(mid);
    assert forall|k: int| 0 <= k < whole.len() && (k < front.len() || k >= front.len()
        + s.len()) implies text::is_white_space(#[trigger] whole[k]) by {
        if k < front.len() {
            assert(whole[k] == front[k]);
        } else {
            assert(whole[k] == back[k - front.len() - s.len()]);
        }
    }
    if s.len() > 0 {
        assert(whole[front.len() as int] == s.first());
        assert(whole[front.len() + s.len() - 1] == s.last());
        assert(i == front.len());
        assert(mid[s.len() - 1] == s.last());
        if j < s.len() {
            assert(text::is_white_space(mid[s.len() - 1]));
        }
        if j > s.len() {
            assert(mid[j - 1] == whole[i + j - 1]);
        }
        assert(mid.take(j) =~= s);
    } else {
        if i < whole.len() {
            assert(text::is_white_space(whole[i]));
        }
        assert(mid.take(j) =~= s);
    }
}

/// Every slash at the end of a text is dropped, and nothing else.
pub proof fn law_trailing_is_dropped(s: Seq<char>, c: char, n: nat)
    requires
        s.len() > 0 ==> s.last() != c,
    ensures
        text::without_trailing(s + Seq::new(n, |i: int| c), c) == s,
    decreases n,
{
    let whole = s + Seq::new(n, |i: int| c);
    if n == 0 {
        assert(whole =~= s);
    } else {
        law_trailing_is_dropped(s, c, (n - 1) as nat);
        assert(whole.drop_last() =~= s + Seq::new((n - 1) as nat, |i: int| c));
    }
}

/// What stands before the first `c` of a text is all that stands there, and the whole text where
/// it has none.
pub proof fn law_before_first(a: Seq<char>, c: char, b: Seq<char>)
    requires
        forall|i: int| 0 <= i < a.len() ==> #[trigger] a[i] != c,
    ensures
        text::before_first(a, c) == a,
        text::before_first(a.push(c) + b, c) == a,
    decreases a.len(),
{
    let whole = a.push(c) + b;
    if a.len() > 0 {
        assert(a[0] != c);
        let rest = a.drop_first();
        assert forall|i: int| 0 <= i < rest.len() implies #[trigger] rest[i] != c by {
            assert(rest[i] == a[i + 1]);
        }
        law_before_first(rest, c, b);
        assert(whole.drop_first() =~= rest.push(c) + b);
        assert(seq![a.first()] + rest =~= a);
    } else {
        assert(text::before_first(whole, c) =~= a);
        assert(text::before_first(a, c) =~= a);
    }
}

/// Digits are written as they are, and a number as its tenth with one more digit.
pub proof fn law_decimal(n: nat, d: nat)
    requires
        d < 10,
    ensures
        text::decimal(d) == seq![((0x30 + d) as char)],
        n > 0 ==> text::decimal(10 * n + d) == text::decimal(n).push((0x30 + d) as char),
{
}

/// What a number is read as does not change with a sign or with zeros before it.
pub proof fn law_number_with_plus(n: u64)
    ensures
        text::number_in(text::decimal(n as nat)) == Some(n),
        text::number_in(seq!['+'] + text::decimal(n as nat)) == Some(n),
{
    text::law_number_reads_back(n);
    text::lemma_decimal(n as nat);
    let s = seq!['+'] + text::decimal(n as nat);
    assert(s.drop_first() =~= text::decimal(n as nat));
}

/// A text with anything but digits, other than one sign before them, is no number; nor is one
/// without digits.
pub proof fn law_no_number(s: Seq<char>, i: int)
    requires
        0 <= i < s.len(),
        !('0' <= s[i] <= '9'),
        !(i == 0 && s[i] == '+'),
    ensures
        text::number_in(s) is None,
        text::number_in(Seq::empty()) is None,
        text::number_in(seq!['+']) is None,
{
    let d = text::without_plus(s);
    if d != s {
        assert(d[i - 1] == s[i]);
        assert(!text::is_digit(d[i - 1]));
    } else {
        assert(!text::is_digit(d[i]));
    }
}

/// A number of more than 64 bits is none.
pub proof fn law_number_too_large(n: nat)
    requires
        n > u64::MAX,
    ensures
        text::number_in(text::decimal(n)) is None,
{
    text::lemma_decimal(n);
    assert(text::is_digit(text::decimal(n)[0]));
}

/// A text begins with another if and only if it is that one with something behind it.
pub proof fn law_begins_with(s: Seq<char>, prefix: Seq<char>)
    ensures
        text::begins_with(s, prefix) <==> exists|rest: Seq<char>| s == #[trigger] (prefix + rest),
{
    if text::begins_with(s, prefix) {
        assert(s =~= prefix + s.skip(prefix.len() as int));
    }
    if exists|rest: Seq<char>| s == #[trigger] (prefix + rest) {
        let rest = choose|rest: Seq<char>| s == #[trigger] (prefix + rest);
        assert(s.take(prefix.len() as int) =~= prefix);
    }
}

/// A text in which a pattern does not occur stays as it is.
pub proof fn law_replaced_without_occurrence(s: Seq<char>, pattern: Seq<char>, with: Seq<char>)
    requires
        forall|i: int| 0 <= i < s.len() ==> !text::begins_with(#[trigger] s.skip(i), pattern),
    ensures
        text::replaced(s, pattern, with) == s,
    decreases s.len(),
{
    if pattern.len() > 0 && s.len() > 0 {
        assert(s.skip(0) =~= s);
        assert(!text::begins_with(s.skip(0), pattern));
        let tail = s.drop_first();
        assert forall|i: int| 0 <= i < tail.len() implies !text::begins_with(
            #[trigger] tail.skip(i),
            pattern,
        ) by {
            assert(tail.skip(i) =~= s.skip(i + 1));
        }
        law_replaced_without_occurrence(tail, pattern, with);
        assert(seq![s.first()] + tail =~= s);
    }
}

/// Where a pattern first occurs, the replacement stands in its place, what is before it stays, and
/// what is behind it is treated in the same way.
pub proof fn law_replaced_step(
    head: Seq<char>,
    pattern: Seq<char>,
    tail: Seq<char>,
    with: Seq<char>,
)
    requires
        pattern.len() > 0,
        forall|i: int|
            0 <= i < head.len() ==> !text::begins_with(
                #[trigger] (head + pattern + tail).skip(i),
                pattern,
            ),
    ensures
        text::replaced(head + pattern + tail, pattern, with) == head + with + text::replaced(
            tail,
            pattern,
            with,
        ),
    decreases head.len(),
{
    let s = head + pattern + tail;
    let rest = text::replaced(tail, pattern, with);
    if head.len() == 0 {
        assert(s.take(pattern.len() as int) =~= pattern);
        assert(s.skip(pattern.len() as int) =~= tail);
        assert(head + with + rest =~= with + rest);
    } else {
        assert(s.skip(0) =~= s);
        assert(!text::begins_with(s.skip(0), pattern));
        let h = head.drop_first();
        let t = h + pattern + tail;
        assert(s.drop_first() =~= t);
        assert forall|i: int| 0 <= i < h.len() implies !text::begins_with(
            #[trigger] (h + pattern + tail).skip(i),
            pattern,
        ) by {
            assert(t.skip(i) =~= s.skip(i + 1));
        }
        law_replaced_step(h, pattern, tail, with);
        assert(seq![s.first()] + (h + with + rest) =~= head + with + rest);
    }
}

/// Two texts are equal but for case if and only if each character is, and a character has another
/// case only if it is one of the 26 letters.
pub proof fn law_same_ignoring_case(a: Seq<char>, b: Seq<char>)
    ensures
        text::same_ignoring_case(a, b) <==> a.len() == b.len() && forall|i: int|
            0 <= i < a.len() ==> {
                let (x, y) = (#[trigger] a[i] as u32, b[i] as u32);
                ||| x == y
                ||| 0x41 <= x <= 0x5a && y == x + 0x20
                ||| 0x41 <= y <= 0x5a && x == y + 0x20
            },
{
}

/// What an optional text, and a result of two texts, hold.
pub proof fn law_text_views(o: Option<String>, r: Result<String, String>)
    ensures
        o matches Some(s) ==> text::opt_view(o) == Some(s@),
        o is None ==> text::opt_view(o) is None,
        r matches Ok(s) ==> text::result_view(r) == Ok::<Seq<char>, Seq<char>>(s@),
        r matches Err(s) ==> text::result_view(r) == Err::<Seq<char>, Seq<char>>(s@),
{
}

/// A member of an object is the one that the object has, or `null`.
pub proof fn law_field(m: Map<Seq<char>, Json>, key: Seq<char>, j: Json)
    ensures
        m.dom().contains(key) ==> Json::Object(m).field(key) == m[key],
        !m.dom().contains(key) ==> Json::Object(m).field(key) == Json::Null,
        !(j is Object) ==> j.field(key) == Json::Null,
{
}

/// A string is taken as it is, a number only in its range, and the items of an array are its own.
pub proof fn law_accessors(s: Seq<char>, n: int, items: Seq<Json>, j: Json, default: Seq<char>)
    ensures
        Json::Text(s).text() == Some(s),
        Json::Text(s).text_or(default) == s,
        !(j is Text) ==> j.text() is None && j.text_or(default) == default,
        0 <= n <= u64::MAX ==> Json::Integer(n).unsigned() == Some(n as u64),
        !(0 <= n <= u64::MAX) ==> Json::Integer(n).unsigned() is None,
        i64::MIN <= n <= i64::MAX ==> Json::Integer(n).signed() == Some(n as i64),
        !(i64::MIN <= n <= i64::MAX) ==> Json::Integer(n).signed() is None,
        !(j is Integer) ==> j.unsigned() is None && j.signed() is None,
        Json::List(items).items() == items,
        !(j is List) ==> j.items().len() == 0,
{
}

/// A member that is put into an object is found under its key, and the others stay.
pub proof fn law_with(m: Map<Seq<char>, Json>, key: Seq<char>, value: Json, other: Seq<char>)
    ensures
        Json::Object(m).with(key, value).field(key) == value,
        other != key ==> Json::Object(m).with(key, value).field(other) == Json::Object(m).field(
            other,
        ),
        Json::empty_object().field(key) == Json::Null,
{
}

/// A text that is JSON counts as what it holds, and any other as an object with no members.
pub proof fn law_read_or_empty(s: Seq<char>)
    ensures
        json::json_read(s) matches Ok(v) ==> json::read_or_empty(s) == v,
        json::json_read(s) is Err ==> json::read_or_empty(s) == Json::Object(
            Map::<Seq<char>, Json>::empty(),
        ),
{
}

/// A number on the wire is its digits to the base 128, the lowest first, each but the last with the
/// high bit set.
pub proof fn law_varint(n: nat)
    ensures
        n < 128 ==> proto::varint(n) == seq![n as u8],
        n >= 128 ==> proto::varint(n).len() > 1 && proto::varint(n)[0] == n % 128 + 128
            && proto::varint(n).skip(1) == proto::varint(n / 128),
{
    if n >= 128 {
        assert(proto::varint(n / 128).len() > 0);
        assert(proto::varint(n).skip(1) =~= proto::varint(n / 128));
    }
}

/// A number is read from the wire as it was written, whatever follows it.
pub proof fn law_varint_is_read(n: nat, rest: Seq<u8>)
    ensures
        proto::read_varint(proto::varint(n) + rest) == Some((n, proto::varint(n).len())),
    decreases n,
{
    let b = proto::varint(n) + rest;
    if n >= 128 {
        law_varint_is_read(n / 128, rest);
        assert(b.drop_first() =~= proto::varint(n / 128) + rest);
    }
}

/// A field on the wire is its number and kind, then its length if it is bytes, then what it holds;
/// a text, bytes and a number that are nothing leave no field.
pub proof fn law_fields_on_the_wire(field: nat, b: Seq<u8>, n: nat)
    ensures
        proto::len_field(field, b) == proto::varint(8 * field + 2) + proto::varint(b.len()) + b,
        b.len() > 0 ==> proto::bytes_field(field, b) == proto::len_field(field, b),
        b.len() == 0 ==> proto::bytes_field(field, b).len() == 0,
        n > 0 ==> proto::uint_field(field, n) == proto::varint(8 * field) + proto::varint(n),
        n == 0 ==> proto::uint_field(field, n).len() == 0,
{
}

} // verus!
