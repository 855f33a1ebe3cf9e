//! Character-level helpers on strings, stated over their `Seq<char>` views.

use vstd::prelude::*;

verus! {

/// Whether `c` has the Unicode `White_Space` property.
pub open spec fn is_whitespace(c: char) -> bool {
    let n = c as u32;
    ||| 0x09 <= n <= 0x0D
    ||| n == 0x20
    ||| n == 0x85
    ||| n == 0xA0
    ||| n == 0x1680
    ||| 0x2000 <= n <= 0x200A
    ||| n == 0x2028
    ||| n == 0x2029
    ||| n == 0x202F
    ||| n == 0x205F
    ||| n == 0x3000
}

/// `s` without its longest prefix of whitespace.
pub open spec fn trim_start(s: Seq<char>) -> Seq<char>
    decreases s.len(),
{
    if s.len() > 0 && is_whitespace(s[0]) {
        trim_start(s.skip(1))
    } else {
        s
    }
}

/// Whether `s` ends with `suffix`.
pub open spec fn ends_with(s: Seq<char>, suffix: Seq<char>) -> bool {
    suffix.len() <= s.len() && s.skip(s.len() - suffix.len()) == suffix
}

/// `s` with every trailing repetition of `suffix` removed.
pub open spec fn trim_end_matches(s: Seq<char>, suffix: Seq<char>) -> Seq<char>
    decreases s.len(),
{
    if suffix.len() > 0 && ends_with(s, suffix) {
        trim_end_matches(s.take(s.len() - suffix.len()), suffix)
    } else {
        s
    }
}

/// The items in order, with `sep` between each two neighbours.
pub open spec fn join(items: Seq<Seq<char>>, sep: Seq<char>) -> Seq<char>
    decreases items.len(),
{
    if items.len() == 0 {
        Seq::empty()
    } else if items.len() == 1 {
        items[0]
    } else {
        join(items.drop_last(), sep) + sep + items.last()
    }
}

/// The views of a sequence of strings.
pub open spec fn views(items: Seq<String>) -> Seq<Seq<char>> {
    Seq::new(items.len(), |i: int| items[i]@)
}

/// Whether `c` is whitespace.
pub fn char_is_whitespace(c: char) -> (r: bool)
    ensures
        r == is_whitespace(c),
{
    let n: u32 = c as u32;
    (0x09 <= n && n <= 0x0D) || n == 0x20 || n == 0x85 || n == 0xA0 || n == 0x1680 || (0x2000 <= n
        && n <= 0x200A) || n == 0x2028 || n == 0x2029 || n == 0x202F || n == 0x205F || n == 0x3000
}

/// The characters of `s`, in order.
pub fn chars_of(s: &str) -> (v: Vec<char>)
    ensures
        v@ == s@,
{
    let mut v: Vec<char> = Vec::new();
    for c in it: s.chars()
        invariant
            it.seq() == s@,
            v@ == it.seq().take(it.index() as int),
    {
        v.push(c);
    }
    v
}

/// Whether `a` and `b` are the same text.
pub fn str_eq(a: &str, b: &str) -> (r: bool)
    ensures
        r == (a@ == b@),
{
    let x: &[u8] = a.as_bytes();
    let y: &[u8] = b.as_bytes();
    proof {
        vstd::utf8::encode_utf8_decode_utf8(a@);
        vstd::utf8::encode_utf8_decode_utf8(b@);
    }
    if x.len() != y.len() {
        return false;
    }
    let mut i: usize = 0;
    while i < x.len()
        invariant
            i <= x@.len(),
            x@.len() == y@.len(),
            x@ == vstd::utf8::encode_utf8(a@),
            y@ == vstd::utf8::encode_utf8(b@),
            forall|j: int| 0 <= j < i ==> x@[j] == y@[j],
        decreases x@.len() - i,
    {
        if x[i] != y[i] {
            return false;
        }
        i = i + 1;
    }
    assert(x@ =~= y@);
    true
}

/// Whether the first character of `s` is `c`.
pub fn starts_with_char(s: &str, c: char) -> (r: bool)
    ensures
        r == (s@.len() > 0 && s@[0] == c),
{
    !s.is_empty() && s.get_char(0) == c
}

/// `s` without its leading whitespace.
pub fn str_trim_start(s: &str) -> (r: String)
    ensures
        r@ == trim_start(s@),
{
    let chars: Vec<char> = chars_of(s);
    let n: usize = chars.len();
    let mut i: usize = 0;
    assert(s@.skip(0) == s@);
    while i < n && char_is_whitespace(chars[i])
        invariant
            n == chars@.len(),
            chars@ == s@,
            i <= n,
            trim_start(s@) == trim_start(s@.skip(i as int)),
        decreases n - i,
    {
        assert(s@.skip(i as int).skip(1) == s@.skip(i as int + 1));
        i = i + 1;
    }
    assert(s@.subrange(i as int, n as int) == s@.skip(i as int));
    s.substring_char(i, n).to_owned()
}

/// Whether `s` ends with `suffix`.
pub fn str_ends_with(s: &str, suffix: &str) -> (r: bool)
    ensures
        r == ends_with(s@, suffix@),
{
    let a: Vec<char> = chars_of(s);
    let b: Vec<char> = chars_of(suffix);
    assert(a@.take(a@.len() as int) == a@);
    chars_end_with(&a, a.len(), &b)
}

/// Whether the first `n` characters of `a` end with `b`.
fn chars_end_with(a: &Vec<char>, n: usize, b: &Vec<char>) -> (r: bool)
    requires
        n <= a@.len(),
    ensures
        r == ends_with(a@.take(n as int), b@),
{
    let m: usize = b.len();
    if m > n {
        return false;
    }
    let start: usize = n - m;
    let ghost tail = a@.take(n as int).skip(start as int);
    let mut i: usize = 0;
    while i < m
        invariant
            m == b@.len(),
            n <= a@.len(),
            start + m == n,
            i <= m,
            tail == a@.take(n as int).skip(start as int),
            forall|j: int| 0 <= j < i ==> tail[j] == b@[j],
        decreases m - i,
    {
        if a[start + i] != b[i] {
            assert(tail[i as int] != b@[i as int]);
            return false;
        }
        i = i + 1;
    }
    assert(tail =~= b@);
    true
}

/// `s` without any repetition of `suffix` at its end.
pub fn str_trim_end_matches(s: &str, suffix: &str) -> (r: String)
    ensures
        r@ == trim_end_matches(s@, suffix@),
{
    let a: Vec<char> = chars_of(s);
    let b: Vec<char> = chars_of(suffix);
    let m: usize = b.len();
    let mut n: usize = a.len();
    assert(s@.take(n as int) == s@);
    if m > 0 {
        while chars_end_with(&a, n, &b)
            invariant
                a@ == s@,
                b@ == suffix@,
                m == b@.len(),
                m > 0,
                n <= a@.len(),
                trim_end_matches(s@, suffix@) == trim_end_matches(s@.take(n as int), suffix@),
            decreases n,
        {
            assert(s@.take(n as int).take(n - m) == s@.take(n - m));
            n = n - m;
        }
    }
    assert(s@.subrange(0, n as int) == s@.take(n as int));
    s.substring_char(0, n).to_owned()
}

/// The items in order with `sep` between each two.
pub fn str_join(items: &Vec<String>, sep: &str) -> (r: String)
    ensures
        r@ == join(views(items@), sep@),
{
    let mut out: String = String::new();
    let mut i: usize = 0;
    while i < items.len()
        invariant
            i <= items.len(),
            out@ == join(views(items@).take(i as int), sep@),
        decreases items.len() - i,
    {
        let ghost before = views(items@).take(i as int);
        let ghost after = views(items@).take(i as int + 1);
        assert(after.drop_last() == before);
        assert(after.last() == items@[i as int]@);
        if i > 0 {
            out.append(sep);
        } else {
            assert(before.len() == 0);
        }
        out.append(items[i].as_str());
        i = i + 1;
    }
    assert(views(items@).take(items.len() as int) == views(items@));
    out
}

/// The lower-case hexadecimal digit of a value below 16.
pub open spec fn hex_digit(n: int) -> char {
    if n == 0 {
        '0'
    } else if n == 1 {
        '1'
    } else if n == 2 {
        '2'
    } else if n == 3 {
        '3'
    } else if n == 4 {
        '4'
    } else if n == 5 {
        '5'
    } else if n == 6 {
        '6'
    } else if n == 7 {
        '7'
    } else if n == 8 {
        '8'
    } else if n == 9 {
        '9'
    } else if n == 10 {
        'a'
    } else if n == 11 {
        'b'
    } else if n == 12 {
        'c'
    } else if n == 13 {
        'd'
    } else if n == 14 {
        'e'
    } else {
        'f'
    }
}

/// The digit of `n` as a string of one character.
pub fn digit_str(n: u8) -> (r: &'static str)
    requires
        n < 16,
    ensures
        r@ == seq![hex_digit(n as int)],
{
    proof {
        reveal_strlit("0");
        reveal_strlit("1");
        reveal_strlit("2");
        reveal_strlit("3");
        reveal_strlit("4");
        reveal_strlit("5");
        reveal_strlit("6");
        reveal_strlit("7");
        reveal_strlit("8");
        reveal_strlit("9");
        reveal_strlit("a");
        reveal_strlit("b");
        reveal_strlit("c");
        reveal_strlit("d");
        reveal_strlit("e");
        reveal_strlit("f");
    }
    let r: &'static str = match n {
        0 => "0",
        1 => "1",
        2 => "2",
        3 => "3",
        4 => "4",
        5 => "5",
        6 => "6",
        7 => "7",
        8 => "8",
        9 => "9",
        10 => "a",
        11 => "b",
        12 => "c",
        13 => "d",
        14 => "e",
        _ => "f",
    };
    assert(r@ =~= seq![hex_digit(n as int)]);
    r
}

/// The decimal digits of `n`, without leading zeros.
pub open spec fn decimal(n: nat) -> Seq<char>
    decreases n,
{
    if n < 10 {
        seq![hex_digit(n as int)]
    } else {
        decimal(n / 10).push(hex_digit((n % 10) as int))
    }
}

/// `n` in decimal.
pub fn decimal_string(n: u64) -> (r: String)
    ensures
        r@ == decimal(n as nat),
    decreases n,
{
    if n < 10 {
        digit_str(n as u8).to_owned()
    } else {
        let mut out: String = decimal_string(n / 10);
        out.append(digit_str((n % 10) as u8));
        out
    }
}

/// Whether `s` begins with `prefix`.
pub open spec fn starts_with(s: Seq<char>, prefix: Seq<char>) -> bool {
    prefix.len() <= s.len() && s.take(prefix.len() as int) == prefix
}

/// Whether `s` begins with `prefix`.
pub fn str_starts_with(s: &str, prefix: &str) -> (r: bool)
    ensures
        r == starts_with(s@, prefix@),
{
    let a: Vec<char> = chars_of(s);
    let b: Vec<char> = chars_of(prefix);
    let m: usize = b.len();
    if m > a.len() {
        return false;
    }
    let mut i: usize = 0;
    while i < m
        invariant
            a@ == s@,
            b@ == prefix@,
            m == b@.len(),
            m <= a@.len(),
            i <= m,
            forall|j: int| 0 <= j < i ==> a@[j] == b@[j],
        decreases m - i,
    {
        if a[i] != b[i] {
            assert(a@.take(m as int)[i as int] != b@[i as int]);
            return false;
        }
        i = i + 1;
    }
    assert(a@.take(m as int) =~= b@);
    true
}

/// `s` without its longest suffix of whitespace.
pub open spec fn trim_end(s: Seq<char>) -> Seq<char>
    decreases s.len(),
{
    if s.len() > 0 && is_whitespace(s.last()) {
        trim_end(s.drop_last())
    } else {
        s
    }
}

/// `s` without whitespace at either end.
pub open spec fn trim(s: Seq<char>) -> Seq<char> {
    trim_end(trim_start(s))
}

/// `s` without whitespace at either end.
pub fn str_trim(s: &str) -> (r: String)
    ensures
        r@ == trim(s@),
{
    let head: String = str_trim_start(s);
    let chars: Vec<char> = chars_of(head.as_str());
    let mut n: usize = chars.len();
    assert(head@.take(n as int) == head@);
    while n > 0 && char_is_whitespace(chars[n - 1])
        invariant
            chars@ == head@,
            n <= chars@.len(),
            trim_end(head@) == trim_end(head@.take(n as int)),
        decreases n,
    {
        assert(head@.take(n as int).drop_last() == head@.take(n - 1));
        n = n - 1;
    }
    assert(head@.subrange(0, n as int) == head@.take(n as int));
    head.as_str().substring_char(0, n).to_owned()
}

/// The pieces of `s` between the occurrences of `sep`, in order. A text without `sep`
/// is one piece, the empty text included.
pub open spec fn split_on(s: Seq<char>, sep: char) -> Seq<Seq<char>>
    decreases s.len(),
{
    if s.len() == 0 {
        seq![Seq::empty()]
    } else {
        let init = split_on(s.drop_last(), sep);
        if s.last() == sep {
            init.push(Seq::empty())
        } else {
            init.update(init.len() - 1, init.last().push(s.last()))
        }
    }
}

/// Each of `pieces` without whitespace at its ends.
pub open spec fn trim_all(pieces: Seq<Seq<char>>) -> Seq<Seq<char>> {
    pieces.map_values(|piece: Seq<char>| trim(piece))
}

/// The pieces of `s` between the occurrences of `sep`, each without whitespace at its
/// ends.
pub fn split_trimmed(s: &str, sep: char) -> (r: Vec<String>)
    ensures
        views(r@) == trim_all(split_on(s@, sep)),
{
    let chars: Vec<char> = chars_of(s);
    let mut pieces: Vec<String> = Vec::new();
    let mut start: usize = 0;
    let mut i: usize = 0;
    assert(s@.take(0) == Seq::<char>::empty());
    assert(views(pieces@) == Seq::<Seq<char>>::empty());
    assert(split_on(s@.take(0), sep).drop_last() == Seq::<Seq<char>>::empty());
    assert(trim_all(Seq::<Seq<char>>::empty()) == Seq::<Seq<char>>::empty());
    assert(s@.subrange(0, 0) == Seq::<char>::empty());
    while i < chars.len()
        invariant
            chars@ == s@,
            start <= i <= chars@.len(),
            split_on(s@.take(i as int), sep).len() > 0,
            views(pieces@) == trim_all(split_on(s@.take(i as int), sep).drop_last()),
            split_on(s@.take(i as int), sep).last() == s@.subrange(start as int, i as int),
        decreases chars@.len() - i,
    {
        let ghost before = split_on(s@.take(i as int), sep);
        let ghost after = split_on(s@.take(i as int + 1), sep);
        assert(s@.take(i as int + 1).drop_last() == s@.take(i as int));
        assert(s@.take(i as int + 1).last() == s@[i as int]);
        if chars[i] == sep {
            let ghost done = views(pieces@);
            let piece: String = str_trim(s.substring_char(start, i));
            pieces.push(piece);
            assert(after == before.push(Seq::empty()));
            assert(after.drop_last() == before);
            assert(before == before.drop_last().push(before.last()));
            assert(views(pieces@) == done.push(piece@));
            assert(trim_all(before) == trim_all(before.drop_last()).push(trim(before.last())));
            start = i + 1;
            assert(s@.subrange(start as int, i as int + 1) == Seq::<char>::empty());
        } else {
            assert(after == before.update(before.len() - 1, before.last().push(s@[i as int])));
            assert(after.drop_last() == before.drop_last());
            assert(s@.subrange(start as int, i as int + 1) == s@.subrange(
                start as int,
                i as int,
            ).push(s@[i as int]));
        }
        i = i + 1;
    }
    assert(s@.take(chars@.len() as int) == s@);
    let ghost all = split_on(s@, sep);
    let ghost done = views(pieces@);
    let piece: String = str_trim(s.substring_char(start, i));
    pieces.push(piece);
    assert(views(pieces@) == done.push(piece@));
    assert(all == all.drop_last().push(all.last()));
    assert(trim_all(all) == trim_all(all.drop_last()).push(trim(all.last())));
    pieces
}

/// The words of `s`: its longest runs of characters that are no whitespace, in order.
pub open spec fn words(s: Seq<char>) -> Seq<Seq<char>>
    decreases s.len(),
{
    if s.len() == 0 {
        Seq::empty()
    } else {
        let before = words(s.drop_last());
        if is_whitespace(s.last()) {
            before
        } else if s.len() >= 2 && !is_whitespace(s[s.len() - 2]) && before.len() > 0 {
            before.update(before.len() - 1, before.last().push(s.last()))
        } else {
            before.push(seq![s.last()])
        }
    }
}

/// The words of `s`, in order.
pub fn split_words(s: &str) -> (r: Vec<String>)
    ensures
        views(r@) == words(s@),
{
    let chars: Vec<char> = chars_of(s);
    let mut done: Vec<String> = Vec::new();
    let mut start: usize = 0;
    let mut in_word: bool = false;
    let mut i: usize = 0;
    assert(s@.take(0) == Seq::<char>::empty());
    assert(views(done@) == Seq::<Seq<char>>::empty());
    while i < chars.len()
        invariant
            chars@ == s@,
            start <= i <= chars@.len(),
            in_word ==> i > 0 && !is_whitespace(s@[i - 1]) && words(s@.take(i as int)).len() > 0
                && views(done@) == words(s@.take(i as int)).drop_last() && words(
                s@.take(i as int),
            ).last() == s@.subrange(start as int, i as int),
            !in_word ==> views(done@) == words(s@.take(i as int)) && (i > 0 ==> is_whitespace(
                s@[i - 1],
            )),
        decreases chars@.len() - i,
    {
        let c: char = chars[i];
        let ghost before = words(s@.take(i as int));
        let ghost after = words(s@.take(i as int + 1));
        let ghost finished = views(done@);
        assert(s@.take(i as int + 1).drop_last() == s@.take(i as int));
        assert(s@.take(i as int + 1).last() == c);
        assert(i > 0 ==> s@.take(i as int + 1)[i - 1] == s@[i - 1]);
        if char_is_whitespace(c) {
            assert(after == before);
            if in_word {
                let word: String = s.substring_char(start, i).to_owned();
                done.push(word);
                assert(views(done@) == finished.push(word@));
                assert(before == before.drop_last().push(before.last()));
                in_word = false;
            }
        } else {
            if in_word {
                assert(after == before.update(before.len() - 1, before.last().push(c)));
                assert(after.drop_last() == before.drop_last());
                assert(s@.subrange(start as int, i as int + 1) == s@.subrange(
                    start as int,
                    i as int,
                ).push(c));
            } else {
                assert(after == before.push(seq![c]));
                assert(after.drop_last() == before);
                start = i;
                assert(s@.subrange(i as int, i as int + 1) == seq![c]);
                in_word = true;
            }
        }
        i = i + 1;
    }
    assert(s@.take(chars@.len() as int) == s@);
    if in_word {
        let ghost all = words(s@);
        let ghost finished = views(done@);
        let word: String = s.substring_char(start, i).to_owned();
        done.push(word);
        assert(views(done@) == finished.push(word@));
        assert(all == all.drop_last().push(all.last()));
    }
    done
}

/// Whether two lists of strings hold the same texts in the same order.
pub fn same_texts(a: &Vec<String>, b: &Vec<String>) -> (r: bool)
    ensures
        r == (views(a@) == views(b@)),
{
    if a.len() != b.len() {
        assert(views(a@).len() != views(b@).len());
        return false;
    }
    let mut i: usize = 0;
    while i < a.len()
        invariant
            i <= a@.len(),
            a@.len() == b@.len(),
            forall|j: int| 0 <= j < i ==> a@[j]@ == b@[j]@,
        decreases a@.len() - i,
    {
        if !str_eq(a[i].as_str(), b[i].as_str()) {
            assert(views(a@)[i as int] != views(b@)[i as int]);
            return false;
        }
        i = i + 1;
    }
    assert(views(a@) =~= views(b@));
    true
}

/// Whether `c` occurs in `s`.
pub fn str_contains_char(s: &str, c: char) -> (r: bool)
    ensures
        r == s@.contains(c),
{
    let chars: Vec<char> = chars_of(s);
    let mut i: usize = 0;
    while i < chars.len()
        invariant
            chars@ == s@,
            i <= chars@.len(),
            forall|j: int| 0 <= j < i ==> s@[j] != c,
        decreases chars@.len() - i,
    {
        if chars[i] == c {
            assert(s@[i as int] == c);
            return true;
        }
        i = i + 1;
    }
    false
}

/// `s` without `suffix` at its end, where it ends with it; `s` itself where it does
/// not. The suffix is taken off once.
pub open spec fn strip_suffix(s: Seq<char>, suffix: Seq<char>) -> Seq<char> {
    if ends_with(s, suffix) {
        s.take(s.len() - suffix.len())
    } else {
        s
    }
}

/// `s` without one `suffix` at its end.
pub fn str_strip_suffix(s: &str, suffix: &str) -> (r: String)
    ensures
        r@ == strip_suffix(s@, suffix@),
{
    if str_ends_with(s, suffix) {
        let n: usize = s.unicode_len();
        let m: usize = suffix.unicode_len();
        assert(s@.subrange(0, n - m) == s@.take(n - m));
        s.substring_char(0, n - m).to_owned()
    } else {
        s.to_owned()
    }
}

/// What stands for `c` in a text whose words are set apart by spaces alone: a space
/// for any whitespace but a line break, else `c` itself.
pub open spec fn spaced_char(c: char) -> char {
    if is_whitespace(c) && c != '\n' {
        ' '
    } else {
        c
    }
}

/// `s` with a space in the place of each whitespace character that is no line break.
pub open spec fn spaced(s: Seq<char>) -> Seq<char> {
    s.map_values(|c: char| spaced_char(c))
}

/// `s` with a space in the place of each whitespace character that is no line break.
pub fn str_spaced(s: &str) -> (r: String)
    ensures
        r@ == spaced(s@),
{
    let chars: Vec<char> = chars_of(s);
    let mut out: String = String::new();
    let mut start: usize = 0;
    let mut i: usize = 0;
    proof {
        reveal_strlit(" ");
    }
    assert(" "@ == seq![' ']);
    assert(spaced(s@).take(0) == Seq::<char>::empty());
    while i < chars.len()
        invariant
            chars@ == s@,
            start <= i <= chars@.len(),
            " "@ == seq![' '],
            out@ == spaced(s@).take(start as int),
            forall|j: int| start <= j < i ==> spaced_char(#[trigger] s@[j]) == s@[j],
        decreases chars@.len() - i,
    {
        let c: char = chars[i];
        if char_is_whitespace(c) && c != '\n' && c != ' ' {
            out.append(s.substring_char(start, i));
            out.append(" ");
            assert(out@ == spaced(s@).take(i as int + 1)) by {
                assert(out@.len() == i + 1);
                assert forall|j: int| 0 <= j < i + 1 implies out@[j] == spaced(s@)[j] by {
                    if j >= start && j < i {
                        assert(spaced_char(s@[j]) == s@[j]);
                    }
                }
            }
            start = i + 1;
        }
        i = i + 1;
    }
    out.append(s.substring_char(start, i));
    assert(out@ == spaced(s@)) by {
        assert(out@.len() == s@.len());
        assert forall|j: int| 0 <= j < s@.len() implies out@[j] == spaced(s@)[j] by {
            if j >= start {
                assert(spaced_char(s@[j]) == s@[j]);
            }
        }
    }
    out
}

/// Whether `s` holds a whitespace character.
pub open spec fn has_whitespace(s: Seq<char>) -> bool {
    exists|i: int| 0 <= i < s.len() && is_whitespace(#[trigger] s[i])
}

/// Whether `s` holds a whitespace character.
pub fn str_has_whitespace(s: &str) -> (r: bool)
    ensures
        r == has_whitespace(s@),
{
    let chars: Vec<char> = chars_of(s);
    let mut i: usize = 0;
    while i < chars.len()
        invariant
            chars@ == s@,
            i <= chars@.len(),
            forall|j: int| 0 <= j < i ==> !is_whitespace(#[trigger] s@[j]),
        decreases chars@.len() - i,
    {
        if char_is_whitespace(chars[i]) {
            assert(is_whitespace(s@[i as int]));
            return true;
        }
        i = i + 1;
    }
    false
}

/// Whether `c` is whitespace or a printable character of the ASCII set.
pub open spec fn is_printable_char(c: char) -> bool {
    is_whitespace(c) || 0x20 <= c as u32 <= 0x7E
}

/// Whether `s` holds nothing but whitespace and printable characters of the ASCII set.
pub open spec fn is_printable(s: Seq<char>) -> bool {
    forall|i: int| 0 <= i < s.len() ==> is_printable_char(#[trigger] s[i])
}

/// Whether `s` holds nothing but whitespace and printable characters of the ASCII set.
pub fn str_is_printable(s: &str) -> (r: bool)
    ensures
        r == is_printable(s@),
{
    let chars: Vec<char> = chars_of(s);
    let mut i: usize = 0;
    while i < chars.len()
        invariant
            chars@ == s@,
            i <= chars@.len(),
            forall|j: int| 0 <= j < i ==> is_printable_char(#[trigger] s@[j]),
        decreases chars@.len() - i,
    {
        let c: char = chars[i];
        let n: u32 = c as u32;
        if !(char_is_whitespace(c) || (0x20 <= n && n <= 0x7E)) {
            assert(!is_printable_char(s@[i as int]));
            return false;
        }
        i = i + 1;
    }
    true
}

/// Whether `word` is one of the words of `text`, whole and unchanged.
pub open spec fn is_word_of(word: Seq<char>, text: Seq<char>) -> bool {
    exists|k: int| 0 <= k < words(text).len() && #[trigger] words(text)[k] == word
}

/// Whether every word of `text` has at most `limit` characters.
pub open spec fn words_within(text: Seq<char>, limit: nat) -> bool {
    forall|k: int| 0 <= k < words(text).len() ==> (#[trigger] words(text)[k]).len() <= limit
}

/// A text that ends in a character that is no whitespace has a word.
pub proof fn lemma_words_nonempty(s: Seq<char>)
    requires
        s.len() > 0,
        !is_whitespace(s.last()),
    ensures
        words(s).len() > 0,
{
}

/// Behind a text that is empty or ends in whitespace, a text adds its own words.
pub proof fn lemma_words_concat(a: Seq<char>, b: Seq<char>)
    requires
        a.len() == 0 || is_whitespace(a.last()),
    ensures
        words(a + b) == words(a) + words(b),
    decreases b.len(),
{
    if b.len() == 0 {
        assert(a + b == a);
        assert(words(a) + words(b) == words(a));
    } else {
        let init = b.drop_last();
        let c = b.last();
        lemma_words_concat(a, init);
        assert((a + b).drop_last() == a + init);
        assert((a + b).last() == c);
        if !is_whitespace(c) {
            if init.len() > 0 && !is_whitespace(init.last()) {
                lemma_words_nonempty(init);
                assert((a + b)[(a + b).len() - 2] == init.last());
                assert(b[b.len() - 2] == init.last());
                let last = words(init).last().push(c);
                assert(words(b) == words(init).update(words(init).len() - 1, last));
                assert(words(a + init).last() == words(init).last());
                assert(words(a + b) == words(a + init).update(words(a + init).len() - 1, last));
                assert(words(a + b) =~= words(a) + words(b));
            } else {
                if init.len() > 0 {
                    assert((a + b)[(a + b).len() - 2] == init.last());
                    assert(b[b.len() - 2] == init.last());
                } else if a.len() > 0 {
                    assert((a + b)[(a + b).len() - 2] == a.last());
                }
                assert(words(b) == words(init).push(seq![c]));
                assert(words(a + b) == words(a + init).push(seq![c]));
                assert(words(a + b) =~= words(a) + words(b));
            }
        }
    }
}

/// A text without whitespace that is not empty is one word.
pub proof fn lemma_words_of_word(w: Seq<char>)
    requires
        w.len() > 0,
        !has_whitespace(w),
    ensures
        words(w) == seq![w],
    decreases w.len(),
{
    let init = w.drop_last();
    assert(!is_whitespace(w[w.len() - 1]));
    if init.len() == 0 {
        assert(words(init) == Seq::<Seq<char>>::empty());
        assert(words(w) == Seq::<Seq<char>>::empty().push(seq![w.last()]));
        assert(seq![w.last()] == w);
        assert(words(w) =~= seq![w]);
    } else {
        assert(!has_whitespace(init)) by {
            if has_whitespace(init) {
                let i = choose|i: int| 0 <= i < init.len() && is_whitespace(#[trigger] init[i]);
                assert(is_whitespace(w[i]));
            }
        }
        lemma_words_of_word(init);
        assert(!is_whitespace(w[w.len() - 2]));
        assert(words(w) == seq![init].update(0, init.push(w.last())));
        assert(init.push(w.last()) == w);
        assert(words(w) =~= seq![w]);
    }
}

/// The words of lines that are put together with spaces are the words of the lines
/// before the last, then those of the last.
pub proof fn lemma_words_of_joined(lines: Seq<Seq<char>>)
    requires
        lines.len() > 0,
    ensures
        words(join(lines, " "@)) == words(join(lines.drop_last(), " "@)) + words(lines.last()),
{
    reveal_strlit(" ");
    assert(" "@ == seq![' ']);
    let before = join(lines.drop_last(), " "@);
    if lines.len() == 1 {
        assert(before == Seq::<char>::empty());
        assert(words(before) + words(lines.last()) == words(lines.last()));
    } else {
        let gap = before + " "@;
        assert(gap == before.push(' '));
        assert(gap.drop_last() == before);
        assert(is_whitespace(gap.last()));
        assert(words(gap) == words(before));
        lemma_words_concat(gap, lines.last());
    }
}

/// The words of the first `count` lines, put together, are the first of the words of
/// all lines put together.
pub proof fn lemma_words_of_first_lines(lines: Seq<Seq<char>>, count: int)
    requires
        0 <= count <= lines.len(),
    ensures
        words(join(lines.take(count), " "@)).is_prefix_of(words(join(lines, " "@))),
    decreases lines.len() - count,
{
    if count < lines.len() {
        lemma_words_of_first_lines(lines, count + 1);
        lemma_words_of_joined(lines.take(count + 1));
        assert(lines.take(count + 1).drop_last() == lines.take(count));
    } else {
        assert(lines.take(count) == lines);
    }
}

/// A line without whitespace that is not empty is a word of the lines put together:
/// the one behind the words of the lines before it.
pub proof fn lemma_line_is_a_word(lines: Seq<Seq<char>>, index: int)
    requires
        0 <= index < lines.len(),
        lines[index].len() > 0,
        !has_whitespace(lines[index]),
    ensures
        ({
            let at = words(join(lines.take(index), " "@)).len() as int;
            at < words(join(lines, " "@)).len() && words(join(lines, " "@))[at] == lines[index]
        }),
{
    let upto = lines.take(index + 1);
    assert(upto.drop_last() == lines.take(index));
    assert(upto.last() == lines[index]);
    lemma_words_of_joined(upto);
    lemma_words_of_word(lines[index]);
    lemma_words_of_first_lines(lines, index + 1);
    let at = words(join(lines.take(index), " "@)).len() as int;
    assert(words(join(upto, " "@))[at] == lines[index]);
}

} // verus!
