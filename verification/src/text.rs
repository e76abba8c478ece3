//! Character-level text handling: whitespace trimming, leading-character stripping,
//! ASCII case folding, decimal rendering and comma-separated lists.

use vstd::prelude::*;

verus! {

// ---------------------------------------------------------------------------------------
// Specifications
// ---------------------------------------------------------------------------------------

/// `char::is_whitespace`: the characters with the Unicode `White_Space` property.
pub open spec fn is_space(c: char) -> bool {
    let u = c as u32;
    ||| 0x9 <= u <= 0xd
    ||| u == 0x20
    ||| u == 0x85
    ||| u == 0xa0
    ||| u == 0x1680
    ||| 0x2000 <= u <= 0x200a
    ||| u == 0x2028
    ||| u == 0x2029
    ||| u == 0x202f
    ||| u == 0x205f
    ||| u == 0x3000
}

/// `u8::is_ascii_whitespace`: space, tab, line feed, form feed and carriage return.
pub open spec fn is_ascii_space(b: u8) -> bool {
    b == 0x20 || b == 0x09 || b == 0x0a || b == 0x0c || b == 0x0d
}

/// Every byte is ASCII whitespace (true of no bytes at all).
pub open spec fn all_ascii_space(bytes: Seq<u8>) -> bool {
    forall|i: int| 0 <= i < bytes.len() ==> is_ascii_space(#[trigger] bytes[i])
}

/// The text that `String::from_utf8_lossy` makes of bytes.
pub uninterp spec fn lossy_text(bytes: Seq<u8>) -> Seq<char>;

/// The text of an optional string.
pub open spec fn opt_text(o: Option<String>) -> Option<Seq<char>> {
    match o {
        Some(s) => Some(s@),
        None => None,
    }
}

/// The text without its leading whitespace.
pub open spec fn strip_start(s: Seq<char>) -> Seq<char>
    decreases s.len(),
{
    if s.len() > 0 && is_space(s[0]) {
        strip_start(s.drop_first())
    } else {
        s
    }
}

/// The text without its trailing whitespace.
pub open spec fn strip_end(s: Seq<char>) -> Seq<char>
    decreases s.len(),
{
    if s.len() > 0 && is_space(s.last()) {
        strip_end(s.drop_last())
    } else {
        s
    }
}

/// `str::trim`: the text without leading and trailing whitespace.
pub open spec fn trim(s: Seq<char>) -> Seq<char> {
    strip_end(strip_start(s))
}

/// `str::trim_start_matches(c)`: the text without any leading run of `c`.
pub open spec fn strip_leading(s: Seq<char>, c: char) -> Seq<char>
    decreases s.len(),
{
    if s.len() > 0 && s[0] == c {
        strip_leading(s.drop_first(), c)
    } else {
        s
    }
}

/// `str::split(',')`: the pieces between commas, empty pieces included; there is always
/// at least one piece.
pub open spec fn segments(s: Seq<char>) -> Seq<Seq<char>>
    decreases s.len(),
{
    if s.len() == 0 {
        seq![Seq::<char>::empty()]
    } else {
        let prev = segments(s.drop_last());
        if s.last() == ',' {
            prev.push(Seq::<char>::empty())
        } else {
            prev.update(prev.len() - 1, prev.last().push(s.last()))
        }
    }
}

/// One list entry: the trimmed piece, and for hashtags also without leading `#`.
pub open spec fn entry(piece: Seq<char>, hashtags: bool) -> Seq<char> {
    if hashtags {
        strip_leading(trim(piece), '#')
    } else {
        trim(piece)
    }
}

/// The entries of the pieces, in order, leaving out those that are empty.
pub open spec fn kept_entries(pieces: Seq<Seq<char>>, hashtags: bool) -> Seq<Seq<char>>
    decreases pieces.len(),
{
    if pieces.len() == 0 {
        Seq::empty()
    } else {
        let rest = kept_entries(pieces.drop_last(), hashtags);
        let e = entry(pieces.last(), hashtags);
        if e.len() == 0 {
            rest
        } else {
            rest.push(e)
        }
    }
}

/// A comma-separated argument as a list: every piece trimmed, empty ones dropped.
pub open spec fn comma_list(s: Seq<char>) -> Seq<Seq<char>> {
    kept_entries(segments(s), false)
}

/// A comma-separated list of hashtags: every piece trimmed and stripped of leading `#`,
/// empty ones dropped.
pub open spec fn hashtag_list(s: Seq<char>) -> Seq<Seq<char>> {
    kept_entries(segments(s), true)
}

/// `u8::to_ascii_lowercase` on characters: `A`..`Z` become `a`..`z`, all else is kept.
pub open spec fn ascii_lower(c: char) -> int {
    let u = (c as u32) as int;
    if 0x41 <= u <= 0x5a {
        u + 32
    } else {
        u
    }
}

/// Whether `a` comes before `b` in the order of `String`.
pub fn before(a: &str, b: &str) -> (res: bool)
    ensures
        res == name_before(a@, b@),
{
    let x = chars_of(a);
    let y = chars_of(b);
    let mut i: usize = 0;
    assert(x@.subrange(0, x.len() as int) =~= x@);
    assert(y@.subrange(0, y.len() as int) =~= y@);
    while i < x.len() && i < y.len()
        invariant
            x@ == a@,
            y@ == b@,
            i <= x.len(),
            i <= y.len(),
            name_before(a@, b@) == name_before(
                x@.subrange(i as int, x.len() as int),
                y@.subrange(i as int, y.len() as int),
            ),
        decreases x.len() - i,
    {
        let ghost xs = x@.subrange(i as int, x.len() as int);
        let ghost ys = y@.subrange(i as int, y.len() as int);
        assert(xs[0] == x@[i as int] && ys[0] == y@[i as int]);
        if (x[i] as u32) < (y[i] as u32) {
            return true;
        }
        if x[i] != y[i] {
            return false;
        }
        assert(xs.drop_first() =~= x@.subrange(i + 1, x.len() as int));
        assert(ys.drop_first() =~= y@.subrange(i + 1, y.len() as int));
        i = i + 1;
    }
    i == x.len() && i < y.len()
}

/// `str::eq_ignore_ascii_case`.
pub open spec fn same_ignoring_ascii_case(a: Seq<char>, b: Seq<char>) -> bool {
    &&& a.len() == b.len()
    &&& forall|i: int| 0 <= i < a.len() ==> ascii_lower(#[trigger] a[i]) == ascii_lower(b[i])
}

/// The decimal digit character for `d` (0 to 9).
pub open spec fn digit_char(d: int) -> char {
    if d == 0 {
        '0'
    } else if d == 1 {
        '1'
    } else if d == 2 {
        '2'
    } else if d == 3 {
        '3'
    } else if d == 4 {
        '4'
    } else if d == 5 {
        '5'
    } else if d == 6 {
        '6'
    } else if d == 7 {
        '7'
    } else if d == 8 {
        '8'
    } else {
        '9'
    }
}

/// The decimal rendering of a natural number, without leading zeros.
pub open spec fn decimal(n: nat) -> Seq<char>
    decreases n,
{
    if n < 10 {
        seq![digit_char(n as int)]
    } else {
        decimal(n / 10).push(digit_char((n % 10) as int))
    }
}

/// `a < b` in the order of `String`: by character code, a proper prefix first.
pub open spec fn name_before(a: Seq<char>, b: Seq<char>) -> bool
    decreases a.len(),
{
    if a.len() == 0 {
        b.len() > 0
    } else if b.len() == 0 {
        false
    } else if (a[0] as u32) < (b[0] as u32) {
        true
    } else if a[0] == b[0] {
        name_before(a.drop_first(), b.drop_first())
    } else {
        false
    }
}

// ---------------------------------------------------------------------------------------
// Lemmas
// ---------------------------------------------------------------------------------------

proof fn lemma_segments_step(s: Seq<char>, i: int)
    requires
        0 <= i < s.len(),
    ensures
        segments(s.take(i + 1)) == if s[i] == ',' {
            segments(s.take(i)).push(Seq::<char>::empty())
        } else {
            segments(s.take(i)).update(
                segments(s.take(i)).len() - 1,
                segments(s.take(i)).last().push(s[i]),
            )
        },
{
    assert(s.take(i + 1).drop_last() =~= s.take(i));
    assert(s.take(i + 1).last() == s[i]);
}

/// The pieces joined with commas (what `comma_list` reads back).
pub open spec fn joined(items: Seq<Seq<char>>) -> Seq<char>
    decreases items.len(),
{
    if items.len() == 0 {
        Seq::empty()
    } else if items.len() == 1 {
        items[0]
    } else {
        joined(items.drop_last()) + seq![','] + items.last()
    }
}

proof fn lemma_strip_start_shape(s: Seq<char>)
    ensures
        strip_start(s).len() <= s.len(),
        strip_start(s) == s.subrange(s.len() - strip_start(s).len(), s.len() as int),
        strip_start(s).len() > 0 ==> !is_space(strip_start(s)[0]),
    decreases s.len(),
{
    if s.len() > 0 && is_space(s[0]) {
        lemma_strip_start_shape(s.drop_first());
        assert(s.drop_first().subrange(
            s.drop_first().len() - strip_start(s).len(),
            s.drop_first().len() as int,
        ) =~= s.subrange(s.len() - strip_start(s).len(), s.len() as int));
    } else {
        assert(s.subrange(0, s.len() as int) =~= s);
    }
}

proof fn lemma_strip_end_shape(s: Seq<char>)
    ensures
        strip_end(s).len() <= s.len(),
        strip_end(s) == s.take(strip_end(s).len() as int),
        strip_end(s).len() > 0 ==> !is_space(strip_end(s).last()),
    decreases s.len(),
{
    if s.len() > 0 && is_space(s.last()) {
        lemma_strip_end_shape(s.drop_last());
        assert(s.drop_last().take(strip_end(s).len() as int) =~= s.take(
            strip_end(s).len() as int,
        ));
    } else {
        assert(s.take(s.len() as int) =~= s);
    }
}

/// The trimmed text has no whitespace at either end.
pub proof fn lemma_trim_shape(s: Seq<char>)
    ensures
        trim(s).len() > 0 ==> !is_space(trim(s)[0]) && !is_space(trim(s).last()),
{
    let x = strip_start(s);
    lemma_strip_start_shape(s);
    lemma_strip_end_shape(x);
    assert(trim(s) == x.take(trim(s).len() as int));
    if trim(s).len() > 0 {
        assert(trim(s)[0] == x[0]);
    }
}

/// Trimming is idempotent: a trimmed text is its own trimmed form.
pub proof fn lemma_trim_idempotent(s: Seq<char>)
    ensures
        trim(trim(s)) == trim(s),
{
    let y = trim(s);
    lemma_trim_shape(s);
    if y.len() > 0 {
        assert(strip_start(y) == y);
        assert(strip_end(y) == y);
    } else {
        assert(strip_start(y) == y);
    }
}

proof fn lemma_kept_entries_shape(pieces: Seq<Seq<char>>, hashtags: bool)
    ensures
        forall|i: int|
            0 <= i < kept_entries(pieces, hashtags).len() ==> exists|j: int|
                0 <= j < pieces.len() && #[trigger] kept_entries(pieces, hashtags)[i] == entry(
                    pieces[j],
                    hashtags,
                ),
        forall|i: int|
            0 <= i < kept_entries(pieces, hashtags).len() ==> #[trigger] kept_entries(
                pieces,
                hashtags,
            )[i].len() > 0,
    decreases pieces.len(),
{
    if pieces.len() > 0 {
        lemma_kept_entries_shape(pieces.drop_last(), hashtags);
        let rest = kept_entries(pieces.drop_last(), hashtags);
        assert forall|i: int| 0 <= i < kept_entries(pieces, hashtags).len() implies exists|j: int|
            0 <= j < pieces.len() && #[trigger] kept_entries(pieces, hashtags)[i] == entry(
                pieces[j],
                hashtags,
            ) by {
            if i < rest.len() {
                let j = choose|j: int|
                    0 <= j < pieces.drop_last().len() && rest[i] == entry(
                        pieces.drop_last()[j],
                        hashtags,
                    );
                assert(pieces[j] == pieces.drop_last()[j]);
            } else {
                assert(kept_entries(pieces, hashtags)[i] == entry(pieces[pieces.len() - 1], hashtags));
            }
        }
    }
}

/// Every entry of a comma-separated list is non-empty and has no whitespace at either end.
pub proof fn lemma_list_entries_trimmed(s: Seq<char>)
    ensures
        forall|i: int| 0 <= i < comma_list(s).len() ==> (#[trigger] comma_list(s)[i]).len() > 0,
        forall|i: int|
            0 <= i < comma_list(s).len() ==> trim(#[trigger] comma_list(s)[i]) == comma_list(s)[i],
{
    lemma_kept_entries_shape(segments(s), false);
    assert forall|i: int| 0 <= i < comma_list(s).len() implies trim(#[trigger] comma_list(s)[i])
        == comma_list(s)[i] by {
        let j = choose|j: int|
            0 <= j < segments(s).len() && comma_list(s)[i] == entry(segments(s)[j], false);
        lemma_trim_idempotent(segments(s)[j]);
    }
}

/// Stripping a leading character removes exactly the run of it at the start: what is left
/// is the rest of the text, in order, and does not start with that character.
pub proof fn lemma_strip_leading_shape(s: Seq<char>, c: char)
    ensures
        strip_leading(s, c).len() <= s.len(),
        s.subrange(s.len() - strip_leading(s, c).len(), s.len() as int) == strip_leading(s, c),
        forall|i: int| 0 <= i < s.len() - strip_leading(s, c).len() ==> #[trigger] s[i] == c,
        strip_leading(s, c).len() > 0 ==> strip_leading(s, c)[0] != c,
    decreases s.len(),
{
    if s.len() > 0 && s[0] == c {
        let t = s.drop_first();
        lemma_strip_leading_shape(t, c);
        let r = strip_leading(s, c);
        assert(t.subrange(t.len() - r.len(), t.len() as int) =~= s.subrange(
            s.len() - r.len(),
            s.len() as int,
        ));
        assert forall|i: int| 0 <= i < s.len() - r.len() implies #[trigger] s[i] == c by {
            if i > 0 {
                assert(s[i] == t[i - 1]);
            }
        }
    } else {
        assert(s.subrange(0, s.len() as int) =~= s);
    }
}

/// Every entry of a hashtag list is non-empty and does not start with `#`.
pub proof fn lemma_hashtag_entries_bare(s: Seq<char>)
    ensures
        forall|i: int| 0 <= i < hashtag_list(s).len() ==> (#[trigger] hashtag_list(s)[i]).len() > 0,
        forall|i: int| 0 <= i < hashtag_list(s).len() ==> (#[trigger] hashtag_list(s)[i])[0] != '#',
{
    lemma_kept_entries_shape(segments(s), true);
    assert forall|i: int| 0 <= i < hashtag_list(s).len() implies (#[trigger] hashtag_list(s)[i])[0]
        != '#' by {
        let j = choose|j: int|
            0 <= j < segments(s).len() && hashtag_list(s)[i] == entry(segments(s)[j], true);
        lemma_strip_leading_shape(trim(segments(s)[j]), '#');
    }
}

proof fn lemma_segments_of_plain(s: Seq<char>)
    requires
        !s.contains(','),
    ensures
        segments(s) == seq![s],
    decreases s.len(),
{
    if s.len() > 0 {
        assert(!s.drop_last().contains(',')) by {
            if s.drop_last().contains(',') {
                let k = choose|k: int| 0 <= k < s.drop_last().len() && s.drop_last()[k] == ',';
                assert(s[k] == ',');
            }
        }
        lemma_segments_of_plain(s.drop_last());
        assert(s.last() != ',') by {
            if s.last() == ',' {
                assert(s[s.len() - 1] == ',');
            }
        }
        assert(s.drop_last().push(s.last()) =~= s);
        assert(seq![s.drop_last()].update(0, s.drop_last().push(s.last())) =~= seq![s]);
    } else {
        assert(s =~= Seq::<char>::empty());
    }
}

proof fn lemma_segments_after_comma(a: Seq<char>, b: Seq<char>)
    requires
        !b.contains(','),
    ensures
        segments(a + seq![','] + b) == segments(a).push(b),
    decreases b.len(),
{
    if b.len() == 0 {
        assert(a + seq![','] + b =~= (a + seq![',']));
        assert((a + seq![',']).drop_last() =~= a);
        assert(b =~= Seq::<char>::empty());
    } else {
        let b0 = b.drop_last();
        assert(!b0.contains(',')) by {
            if b0.contains(',') {
                let k = choose|k: int| 0 <= k < b0.len() && b0[k] == ',';
                assert(b[k] == ',');
            }
        }
        lemma_segments_after_comma(a, b0);
        let s = a + seq![','] + b;
        assert(s.drop_last() =~= a + seq![','] + b0);
        assert(s.last() == b.last());
        assert(b.last() != ',') by {
            if b.last() == ',' {
                assert(b[b.len() - 1] == ',');
            }
        }
        assert(b0.push(b.last()) =~= b);
        assert(segments(a).push(b0).update(segments(a).len() as int, b0.push(b.last()))
            =~= segments(a).push(b));
    }
}

proof fn lemma_segments_of_joined(items: Seq<Seq<char>>)
    requires
        items.len() > 0,
        forall|i: int| 0 <= i < items.len() ==> !(#[trigger] items[i]).contains(','),
    ensures
        segments(joined(items)) == items,
    decreases items.len(),
{
    if items.len() == 1 {
        lemma_segments_of_plain(items[0]);
        assert(seq![items[0]] =~= items);
    } else {
        let rest = items.drop_last();
        assert forall|i: int| 0 <= i < rest.len() implies !(#[trigger] rest[i]).contains(',') by {
            assert(rest[i] == items[i]);
        }
        lemma_segments_of_joined(rest);
        assert(!items.last().contains(',')) by {
            assert(items.last() == items[items.len() - 1]);
        }
        lemma_segments_after_comma(joined(rest), items.last());
        assert(rest.push(items.last()) =~= items);
    }
}

proof fn lemma_kept_entries_of_clean(items: Seq<Seq<char>>)
    requires
        forall|i: int|
            0 <= i < items.len() ==> (#[trigger] items[i]).len() > 0 && trim(items[i]) == items[i],
    ensures
        kept_entries(items, false) == items,
    decreases items.len(),
{
    if items.len() > 0 {
        let rest = items.drop_last();
        assert forall|i: int| 0 <= i < rest.len() implies (#[trigger] rest[i]).len() > 0 && trim(
            rest[i],
        ) == rest[i] by {
            assert(rest[i] == items[i]);
        }
        lemma_kept_entries_of_clean(rest);
        assert(items.last() == items[items.len() - 1]);
        assert(rest.push(items.last()) =~= items);
    }
}

/// Reading back a list that was written with commas gives the same entries, provided every
/// entry is non-empty, has no whitespace at either end and holds no comma.
pub proof fn lemma_list_round_trip(items: Seq<Seq<char>>)
    requires
        forall|i: int|
            0 <= i < items.len() ==> (#[trigger] items[i]).len() > 0 && trim(items[i]) == items[i]
                && !items[i].contains(','),
    ensures
        comma_list(joined(items)) == items,
{
    if items.len() == 0 {
        assert(comma_list(joined(items)) == kept_entries(seq![Seq::<char>::empty()], false));
        reveal_with_fuel(kept_entries, 2);
        assert(strip_start(Seq::<char>::empty()) == Seq::<char>::empty());
        assert(strip_end(Seq::<char>::empty()) == Seq::<char>::empty());
        assert(seq![Seq::<char>::empty()].drop_last() =~= Seq::<Seq<char>>::empty());
        assert(comma_list(joined(items)) =~= items);
    } else {
        lemma_segments_of_joined(items);
        lemma_kept_entries_of_clean(items);
    }
}

/// Nothing comes before itself.
pub proof fn lemma_before_irreflexive(a: Seq<char>)
    ensures
        !name_before(a, a),
    decreases a.len(),
{
    if a.len() > 0 {
        lemma_before_irreflexive(a.drop_first());
    }
}

/// The order is transitive.
pub proof fn lemma_before_transitive(a: Seq<char>, b: Seq<char>, c: Seq<char>)
    requires
        name_before(a, b),
        name_before(b, c),
    ensures
        name_before(a, c),
    decreases a.len(),
{
    if a.len() > 0 && b.len() > 0 && c.len() > 0 {
        if a[0] == b[0] && b[0] == c[0] {
            lemma_before_transitive(a.drop_first(), b.drop_first(), c.drop_first());
        }
    }
}

/// The number that decimal digits stand for.
pub open spec fn digits_value(s: Seq<char>) -> int
    decreases s.len(),
{
    if s.len() == 0 {
        0
    } else {
        digits_value(s.drop_last()) * 10 + (s.last() as int - '0' as int)
    }
}

proof fn lemma_digit_char_value(d: int)
    requires
        0 <= d <= 9,
    ensures
        digit_char(d) as int - '0' as int == d,
        '0' <= digit_char(d) <= '9',
{
}

/// The decimal rendering of a number is a non-empty run of the digits `0` to `9` that reads
/// back as that number, and starts with `0` only for zero itself.
pub proof fn lemma_decimal_reads_back(n: nat)
    ensures
        decimal(n).len() > 0,
        forall|i: int| 0 <= i < decimal(n).len() ==> '0' <= #[trigger] decimal(n)[i] <= '9',
        digits_value(decimal(n)) == n,
        n > 0 ==> decimal(n)[0] != '0',
    decreases n,
{
    if n >= 10 {
        lemma_decimal_reads_back(n / 10);
        let d = decimal(n);
        let head = decimal((n / 10) as nat);
        assert(d.drop_last() =~= head);
        assert(d[0] == head[0]);
        assert forall|i: int| 0 <= i < d.len() implies '0' <= #[trigger] d[i] <= '9' by {
            if i < head.len() {
                assert(d[i] == head[i]);
            }
        }
        vstd::arithmetic::div_mod::lemma_fundamental_div_mod(n as int, 10);
        lemma_digit_char_value((n % 10) as int);
        assert(d.last() == digit_char((n % 10) as int));
        assert(digits_value(d) == digits_value(head) * 10 + (d.last() as int - '0' as int));
    } else {
        lemma_digit_char_value(n as int);
        let d = decimal(n);
        assert(d.drop_last() =~= Seq::<char>::empty());
        assert(digits_value(Seq::<char>::empty()) == 0);
        assert(d.last() == digit_char(n as int));
    }
}

/// The order of names is that of `String`: a proper prefix comes first; otherwise the first
/// character where they differ decides, by character code; of two different names one
/// always comes first.
pub proof fn lemma_name_order(a: Seq<char>, b: Seq<char>, i: int)
    ensures
        a.len() < b.len() && b.take(a.len() as int) == a ==> name_before(a, b),
        0 <= i < a.len() && i < b.len() && a.take(i) == b.take(i) && (a[i] as u32) < (b[i] as u32)
            ==> name_before(a, b) && !name_before(b, a),
        a != b ==> name_before(a, b) || name_before(b, a),
    decreases a.len(),
{
    if a.len() > 0 && b.len() > 0 {
        lemma_name_order(a.drop_first(), b.drop_first(), i - 1);
        if a.len() < b.len() && b.take(a.len() as int) == a {
            assert(a[0] == b.take(a.len() as int)[0]);
            assert(b.drop_first().take(a.drop_first().len() as int) =~= a.drop_first()) by {
                assert forall|k: int| 0 <= k < a.len() - 1 implies b.drop_first()[k] == a.drop_first()[k] by {
                    assert(b.take(a.len() as int)[k + 1] == a[k + 1]);
                }
            }
        }
        if 0 <= i < a.len() && i < b.len() && a.take(i) == b.take(i) && (a[i] as u32) < (
        b[i] as u32) {
            if i > 0 {
                assert(a[0] == a.take(i)[0] && b[0] == b.take(i)[0]);
                assert(a.drop_first().take(i - 1) =~= b.drop_first().take(i - 1)) by {
                    assert forall|k: int| 0 <= k < i - 1 implies a.drop_first()[k] == b.drop_first()[k] by {
                        assert(a.take(i)[k + 1] == b.take(i)[k + 1]);
                    }
                }
            }
        }
        if a != b && a[0] == b[0] {
            assert(a.drop_first() != b.drop_first()) by {
                if a.drop_first() == b.drop_first() {
                    assert(a =~= b) by {
                        assert forall|k: int| 0 <= k < a.len() implies a[k] == b[k] by {
                            if k > 0 {
                                assert(a[k] == a.drop_first()[k - 1]);
                                assert(b[k] == b.drop_first()[k - 1]);
                            }
                        }
                    }
                }
            }
        }
        if a != b && a[0] != b[0] {
            vstd::utf8::char_u32_cast(a[0], a[0] as u32);
            vstd::utf8::char_u32_cast(b[0], b[0] as u32);
        }
    } else if a.len() == 0 && b.len() == 0 {
        assert(a =~= b);
    }
}

// ---------------------------------------------------------------------------------------
// Executable functions
// ---------------------------------------------------------------------------------------

/// The characters of a string, in order.
pub fn chars_of(s: &str) -> (res: Vec<char>)
    ensures
        res@ == s@,
{
    broadcast use vstd::string::group_string_axioms;

    let mut res: Vec<char> = Vec::new();
    for c in it: s.chars()
        invariant
            it.seq() == s@,
            res@ == it.seq().take(it.index()),
    {
        res.push(c);
    }
    res
}

/// `char::is_whitespace`.
pub fn is_space_char(c: char) -> (res: bool)
    ensures
        res == is_space(c),
{
    let u = c as u32;
    (0x9 <= u && u <= 0xd) || u == 0x20 || u == 0x85 || u == 0xa0 || u == 0x1680 || (0x2000 <= u
        && u <= 0x200a) || u == 0x2028 || u == 0x2029 || u == 0x202f || u == 0x205f || u == 0x3000
}

/// The bounds, inside `lo..hi`, of the trimmed text of `cs[lo..hi]`.
pub fn trim_bounds(cs: &Vec<char>, lo: usize, hi: usize) -> (res: (usize, usize))
    requires
        lo <= hi <= cs.len(),
    ensures
        lo <= res.0 <= res.1 <= hi,
        cs@.subrange(res.0 as int, res.1 as int) == trim(cs@.subrange(lo as int, hi as int)),
{
    let mut a = lo;
    while a < hi && is_space_char(cs[a])
        invariant
            lo <= a <= hi <= cs.len(),
            strip_start(cs@.subrange(lo as int, hi as int)) == strip_start(
                cs@.subrange(a as int, hi as int),
            ),
        decreases hi - a,
    {
        assert(cs@.subrange(a as int, hi as int).drop_first() =~= cs@.subrange(
            a + 1,
            hi as int,
        ));
        a = a + 1;
    }
    let mut b = hi;
    while b > a && is_space_char(cs[b - 1])
        invariant
            lo <= a <= b <= hi <= cs.len(),
            strip_end(cs@.subrange(a as int, hi as int)) == strip_end(
                cs@.subrange(a as int, b as int),
            ),
        decreases b - a,
    {
        assert(cs@.subrange(a as int, b as int).drop_last() =~= cs@.subrange(
            a as int,
            b - 1,
        ));
        b = b - 1;
    }
    (a, b)
}

/// The bounds, inside `lo..hi`, of `cs[lo..hi]` without any leading run of `c`.
pub fn strip_leading_bounds(cs: &Vec<char>, lo: usize, hi: usize, c: char) -> (res: usize)
    requires
        lo <= hi <= cs.len(),
    ensures
        lo <= res <= hi,
        cs@.subrange(res as int, hi as int) == strip_leading(cs@.subrange(lo as int, hi as int), c),
{
    let mut a = lo;
    while a < hi && cs[a] == c
        invariant
            lo <= a <= hi <= cs.len(),
            strip_leading(cs@.subrange(lo as int, hi as int), c) == strip_leading(
                cs@.subrange(a as int, hi as int),
                c,
            ),
        decreases hi - a,
    {
        assert(cs@.subrange(a as int, hi as int).drop_first() =~= cs@.subrange(
            a + 1,
            hi as int,
        ));
        a = a + 1;
    }
    a
}

/// `String::from_utf8_lossy`, as an owned string: the text named by `lossy_text` (the
/// decoding of the bytes, with U+FFFD in place of invalid sequences; not stated further).
#[verifier::external_body]
pub(crate) fn from_utf8_lossy(bytes: &[u8]) -> (res: String)
    ensures
        res@ == lossy_text(bytes@),
{
    String::from_utf8_lossy(bytes).into_owned()
}

/// `bytes.iter().all(u8::is_ascii_whitespace)`.
pub fn all_ascii_whitespace(bytes: &[u8]) -> (res: bool)
    ensures
        res == all_ascii_space(bytes@),
{
    let mut i: usize = 0;
    while i < bytes.len()
        invariant
            i <= bytes@.len(),
            forall|j: int| 0 <= j < i ==> is_ascii_space(#[trigger] bytes@[j]),
        decreases bytes@.len() - i,
    {
        let b = bytes[i];
        if !(b == 0x20 || b == 0x09 || b == 0x0a || b == 0x0c || b == 0x0d) {
            assert(!is_ascii_space(bytes@[i as int]));
            return false;
        }
        i = i + 1;
    }
    true
}

/// A copy of a string slice.
pub fn owned(s: &str) -> (res: String)
    ensures
        res@ == s@,
{
    String::from_str(s)
}

/// `str::trim`, as an owned string.
pub fn trimmed(s: &str) -> (res: String)
    ensures
        res@ == trim(s@),
{
    let cs = chars_of(s);
    let (a, b) = trim_bounds(&cs, 0, cs.len());
    assert(cs@.subrange(0, cs@.len() as int) =~= cs@);
    owned(s.substring_char(a, b))
}

/// `str::trim_start_matches(c)`, as an owned string.
pub fn without_leading(s: &str, c: char) -> (res: String)
    ensures
        res@ == strip_leading(s@, c),
{
    let cs = chars_of(s);
    let a = strip_leading_bounds(&cs, 0, cs.len(), c);
    assert(cs@.subrange(0, cs@.len() as int) =~= cs@);
    owned(s.substring_char(a, cs.len()))
}

/// `str::ends_with(c)`.
pub fn ends_with_char(s: &str, c: char) -> (res: bool)
    ensures
        res == (s@.len() > 0 && s@.last() == c),
{
    let cs = chars_of(s);
    cs.len() > 0 && cs[cs.len() - 1] == c
}

/// `str::eq_ignore_ascii_case`.
pub fn eq_ignore_ascii_case(a: &str, b: &str) -> (res: bool)
    ensures
        res == same_ignoring_ascii_case(a@, b@),
{
    let x = chars_of(a);
    let y = chars_of(b);
    if x.len() != y.len() {
        return false;
    }
    let mut i: usize = 0;
    while i < x.len()
        invariant
            x@ == a@,
            y@ == b@,
            x.len() == y.len(),
            i <= x.len(),
            forall|j: int| 0 <= j < i ==> ascii_lower(#[trigger] x@[j]) == ascii_lower(y@[j]),
        decreases x.len() - i,
    {
        let u = x[i] as u32;
        let v = y[i] as u32;
        let lu: u32 = if 0x41 <= u && u <= 0x5a {
            u + 32
        } else {
            u
        };
        let lv: u32 = if 0x41 <= v && v <= 0x5a {
            v + 32
        } else {
            v
        };
        if lu != lv {
            return false;
        }
        i = i + 1;
    }
    true
}

fn digit_str(d: u64) -> (res: &'static str)
    requires
        d < 10,
    ensures
        res@ == seq![digit_char(d as int)],
{
    proof {
        reveal_strlit("0");
        reveal_strlit("1");
        reveal_strlit("2");
        reveal_strlit("3");
        reveal_strlit("4");
        reveal_strlit("5");
        reveal_strlit("6");
        reveal_strlit("7");
        reveal_strlit("8");
        reveal_strlit("9");
    }
    if d == 0 {
        "0"
    } else if d == 1 {
        "1"
    } else if d == 2 {
        "2"
    } else if d == 3 {
        "3"
    } else if d == 4 {
        "4"
    } else if d == 5 {
        "5"
    } else if d == 6 {
        "6"
    } else if d == 7 {
        "7"
    } else if d == 8 {
        "8"
    } else {
        "9"
    }
}

/// The decimal rendering of `n` (what `n.to_string()` gives for an unsigned integer).
pub fn decimal_string(n: u64) -> (res: String)
    ensures
        res@ == decimal(n as nat),
    decreases n,
{
    if n < 10 {
        owned(digit_str(n))
    } else {
        let mut head = decimal_string(n / 10);
        head.append(digit_str(n % 10));
        head
    }
}

fn push_entry(
    s: &str,
    cs: &Vec<char>,
    lo: usize,
    hi: usize,
    hashtags: bool,
    items: &mut Vec<String>,
)
    requires
        cs@ == s@,
        lo <= hi <= cs.len(),
    ensures
        final(items).deep_view() == if entry(cs@.subrange(lo as int, hi as int), hashtags).len()
            == 0 {
            old(items).deep_view()
        } else {
            old(items).deep_view().push(entry(cs@.subrange(lo as int, hi as int), hashtags))
        },
{
    let (a, b) = trim_bounds(cs, lo, hi);
    let a = if hashtags {
        let a2 = strip_leading_bounds(cs, a, b, '#');
        a2
    } else {
        a
    };
    proof {
        assert(cs@.subrange(a as int, b as int) == entry(
            cs@.subrange(lo as int, hi as int),
            hashtags,
        ));
    }
    if a < b {
        let item = owned(s.substring_char(a, b));
        let ghost before = items.deep_view();
        items.push(item);
        assert(items.deep_view() =~= before.push(item@));
    }
}

fn collect_entries(s: &str, hashtags: bool) -> (res: Vec<String>)
    ensures
        res.deep_view() == kept_entries(segments(s@), hashtags),
{
    let cs = chars_of(s);
    let n = cs.len();
    let mut items: Vec<String> = Vec::new();
    let mut start: usize = 0;
    let mut i: usize = 0;
    proof {
        assert(s@.take(0) =~= Seq::<char>::empty());
        assert(items.deep_view() =~= Seq::<Seq<char>>::empty());
    }
    while i < n
        invariant
            cs@ == s@,
            n == cs.len(),
            start <= i <= n,
            segments(s@.take(i as int)).len() >= 1,
            segments(s@.take(i as int)).last() == s@.subrange(start as int, i as int),
            items.deep_view() == kept_entries(segments(s@.take(i as int)).drop_last(), hashtags),
        decreases n - i,
    {
        let ghost segs = segments(s@.take(i as int));
        proof {
            lemma_segments_step(s@, i as int);
        }
        if cs[i] == ',' {
            push_entry(s, &cs, start, i, hashtags, &mut items);
            proof {
                let next = segs.push(Seq::<char>::empty());
                assert(next.drop_last() =~= segs);
                assert(segs =~= segs.drop_last().push(segs.last()));
            }
            start = i + 1;
            assert(s@.subrange(start as int, start as int) =~= Seq::<char>::empty());
        } else {
            proof {
                let next = segs.update(segs.len() - 1, segs.last().push(s@[i as int]));
                assert(next.drop_last() =~= segs.drop_last());
                assert(next.last() =~= s@.subrange(start as int, i + 1));
            }
        }
        i = i + 1;
    }
    proof {
        assert(s@.take(n as int) =~= s@);
    }
    let ghost segs = segments(s@);
    push_entry(s, &cs, start, n, hashtags, &mut items);
    proof {
        assert(segs =~= segs.drop_last().push(segs.last()));
    }
    items
}

/// `s.split(',').map(str::trim).filter(|x| !x.is_empty())`, as owned strings.
pub fn split_list(s: &str) -> (res: Vec<String>)
    ensures
        res.deep_view() == comma_list(s@),
{
    collect_entries(s, false)
}

/// `s.split(',').map(str::trim).map(|x| x.trim_start_matches('#')).filter(|x| !x.is_empty())`,
/// as owned strings.
pub fn split_hashtags(s: &str) -> (res: Vec<String>)
    ensures
        res.deep_view() == hashtag_list(s@),
{
    collect_entries(s, true)
}

} // verus!
