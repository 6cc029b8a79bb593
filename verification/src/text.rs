//! Text operations on characters: trimming, splitting, comparing, and decimal
//! numbers.
use vstd::prelude::*;

verus! {

/// The characters with the Unicode property `White_Space`.
pub open spec fn is_white_space(c: char) -> bool {
    let n = c as u32;
    ||| 0x09 <= n <= 0x0d
    ||| n == 0x20
    ||| n == 0x85
    ||| n == 0xa0
    ||| n == 0x1680
    ||| 0x2000 <= n <= 0x200a
    ||| n == 0x2028
    ||| n == 0x2029
    ||| n == 0x202f
    ||| n == 0x205f
    ||| n == 0x3000
}

/// Whether a character has the Unicode property `White_Space`.
pub fn white_space(c: char) -> (res: bool)
    ensures
        res == is_white_space(c),
{
    let n = c as u32;
    (0x09 <= n && n <= 0x0d) || n == 0x20 || n == 0x85 || n == 0xa0 || n == 0x1680 || (0x2000 <= n
        && n <= 0x200a) || n == 0x2028 || n == 0x2029 || n == 0x202f || n == 0x205f || n == 0x3000
}

/// The characters of a string.
pub fn chars_of(s: &str) -> (chars: Vec<char>)
    ensures
        chars@ == s@,
{
    let mut chars: Vec<char> = Vec::new();
    for c in it: s.chars()
        invariant
            it.seq() == s@,
            chars@ == s@.take(it.index()),
    {
        chars.push(c);
        assert(chars@ =~= s@.take(it.index() + 1));
    }
    assert(s@.take(s@.len() as int) =~= s@);
    chars
}

/// Whether two strings hold the same characters.
pub fn str_eq(a: &str, b: &str) -> (res: bool)
    ensures
        res == (a@ == b@),
{
    let x = chars_of(a);
    let y = chars_of(b);
    if x.len() != y.len() {
        return false;
    }
    let mut i: usize = 0;
    while i < x.len()
        invariant
            x@ == a@,
            y@ == b@,
            x@.len() == y@.len(),
            i <= x@.len(),
            forall|j: int| 0 <= j < i ==> x@[j] == y@[j],
        decreases x@.len() - i,
    {
        if x[i] != y[i] {
            return false;
        }
        i = i + 1;
    }
    assert(a@ =~= b@);
    true
}

// --- trimming ---------------------------------------------------------------

/// A sequence without the white space it starts with.
pub open spec fn trimmed_start(s: Seq<char>) -> Seq<char>
    decreases s.len(),
{
    if s.len() > 0 && is_white_space(s[0]) {
        trimmed_start(s.drop_first())
    } else {
        s
    }
}

/// A sequence without the white space it ends with.
pub open spec fn trimmed_end(s: Seq<char>) -> Seq<char>
    decreases s.len(),
{
    if s.len() > 0 && is_white_space(s.last()) {
        trimmed_end(s.drop_last())
    } else {
        s
    }
}

/// A sequence without the white space around it.
pub open spec fn trimmed(s: Seq<char>) -> Seq<char> {
    trimmed_end(trimmed_start(s))
}

/// Only white space, or nothing at all.
pub open spec fn is_blank(s: Seq<char>) -> bool {
    forall|i: int| 0 <= i < s.len() ==> is_white_space(#[trigger] s[i])
}

proof fn lemma_trimmed_start_at(s: Seq<char>, i: int)
    requires
        0 <= i <= s.len(),
        forall|k: int| 0 <= k < i ==> is_white_space(#[trigger] s[k]),
        i < s.len() ==> !is_white_space(s[i]),
    ensures
        trimmed_start(s) == s.skip(i),
    decreases i,
{
    if i == 0 {
        assert(s.skip(0) =~= s);
    } else {
        assert(is_white_space(s[0]));
        let rest = s.drop_first();
        assert forall|k: int| 0 <= k < i - 1 implies is_white_space(#[trigger] rest[k]) by {
            assert(rest[k] == s[k + 1]);
        }
        lemma_trimmed_start_at(rest, i - 1);
        assert(rest.skip(i - 1) =~= s.skip(i));
    }
}

proof fn lemma_trimmed_end_at(s: Seq<char>, j: int)
    requires
        0 <= j <= s.len(),
        forall|k: int| j <= k < s.len() ==> is_white_space(#[trigger] s[k]),
        j > 0 ==> !is_white_space(s[j - 1]),
    ensures
        trimmed_end(s) == s.take(j),
    decreases s.len() - j,
{
    if j == s.len() {
        assert(s.take(j) =~= s);
    } else {
        assert(is_white_space(s.last()));
        lemma_trimmed_end_at(s.drop_last(), j);
        assert(s.drop_last().take(j) =~= s.take(j));
    }
}

/// Trimming leaves nothing exactly when there was nothing but white space.
pub proof fn trimming_empties_only_blanks(s: Seq<char>)
    ensures
        trimmed(s).len() == 0 <==> is_blank(s),
    decreases s.len(),
{
    if s.len() == 0 {
    } else if is_white_space(s[0]) {
        let rest = s.drop_first();
        trimming_empties_only_blanks(rest);
        if is_blank(rest) {
            assert forall|i: int| 0 <= i < s.len() implies is_white_space(#[trigger] s[i]) by {
                if i > 0 {
                    assert(rest[i - 1] == s[i]);
                }
            }
        }
        if is_blank(s) {
            assert forall|i: int| 0 <= i < rest.len() implies is_white_space(#[trigger] rest[i]) by {
                assert(rest[i] == s[i + 1]);
            }
        }
    } else {
        assert(trimmed_start(s) == s);
        lemma_trimmed_end_keeps_head(s);
    }
}

proof fn lemma_trimmed_end_keeps_head(s: Seq<char>)
    requires
        s.len() > 0,
        !is_white_space(s[0]),
    ensures
        trimmed_end(s).len() > 0,
        trimmed_end(s)[0] == s[0],
    decreases s.len(),
{
    if is_white_space(s.last()) {
        assert(s.len() > 1);
        lemma_trimmed_end_keeps_head(s.drop_last());
    }
}

/// Trimming changes nothing when neither end is white space.
pub proof fn trimming_keeps_tight_text(s: Seq<char>)
    requires
        s.len() > 0 ==> !is_white_space(s[0]) && !is_white_space(s.last()),
    ensures
        trimmed(s) == s,
{
}

/// What trimming leaves has white space at neither end.
pub proof fn trimmed_text_is_tight(s: Seq<char>)
    ensures
        trimmed(s).len() > 0 ==> !is_white_space(trimmed(s)[0]) && !is_white_space(
            trimmed(s).last(),
        ),
{
    lemma_trimmed_start_head(s);
    lemma_trimmed_end_last(trimmed_start(s));
    if trimmed_start(s).len() > 0 {
        lemma_trimmed_end_keeps_head(trimmed_start(s));
    }
}

proof fn lemma_trimmed_start_head(s: Seq<char>)
    ensures
        trimmed_start(s).len() > 0 ==> !is_white_space(trimmed_start(s)[0]),
    decreases s.len(),
{
    if s.len() > 0 && is_white_space(s[0]) {
        lemma_trimmed_start_head(s.drop_first());
    }
}

proof fn lemma_trimmed_end_last(s: Seq<char>)
    ensures
        trimmed_end(s).len() > 0 ==> !is_white_space(trimmed_end(s).last()),
    decreases s.len(),
{
    if s.len() > 0 && is_white_space(s.last()) {
        lemma_trimmed_end_last(s.drop_last());
    }
}

/// The string without the white space around it.
pub fn trim(s: &str) -> (res: &str)
    ensures
        res@ == trimmed(s@),
{
    let chars = chars_of(s);
    let n: usize = chars.len();
    let mut i: usize = 0;
    while i < n && white_space(chars[i])
        invariant
            i <= n,
            n == chars@.len(),
            chars@ == s@,
            forall|k: int| 0 <= k < i ==> is_white_space(#[trigger] s@[k]),
        decreases n - i,
    {
        i = i + 1;
    }
    proof {
        lemma_trimmed_start_at(s@, i as int);
    }
    let mut j: usize = n;
    while j > i && white_space(chars[j - 1])
        invariant
            i <= j <= n,
            n == chars@.len(),
            chars@ == s@,
            forall|k: int| j <= k < n ==> is_white_space(#[trigger] s@[k]),
        decreases j,
    {
        j = j - 1;
    }
    proof {
        let head = s@.skip(i as int);
        assert forall|k: int| j - i <= k < head.len() implies is_white_space(#[trigger] head[k]) by {
            assert(head[k] == s@[k + i]);
        }
        lemma_trimmed_end_at(head, j - i);
        assert(head.take(j - i) =~= s@.subrange(i as int, j as int));
    }
    s.substring_char(i, j)
}

/// Whether nothing is left of the string once trimmed.
pub fn blank(s: &str) -> (res: bool)
    ensures
        res == (trimmed(s@).len() == 0),
{
    proof {
        trimming_empties_only_blanks(s@);
    }
    for c in it: s.chars()
        invariant
            it.seq() == s@,
            trimmed(s@).len() == 0 <==> is_blank(s@),
            forall|k: int| 0 <= k < it.index() ==> is_white_space(#[trigger] s@[k]),
    {
        if !white_space(c) {
            assert(!is_white_space(s@[it.index()]));
            return false;
        }
    }
    true
}

// --- prefixes and separators ------------------------------------------------

/// What follows a prefix, if the sequence starts with it.
pub open spec fn after_prefix(s: Seq<char>, prefix: Seq<char>) -> Option<Seq<char>> {
    if prefix.is_prefix_of(s) {
        Some(s.skip(prefix.len() as int))
    } else {
        None
    }
}

/// What follows a prefix, if the string starts with it.
pub fn strip_prefix<'a>(s: &'a str, prefix: &str) -> (res: Option<&'a str>)
    ensures
        match res {
            Some(rest) => after_prefix(s@, prefix@) == Some(rest@),
            None => after_prefix(s@, prefix@) is None,
        },
{
    let n: usize = s.unicode_len();
    let m: usize = prefix.unicode_len();
    if n < m {
        return None;
    }
    let head = s.substring_char(0, m);
    let rest = s.substring_char(m, n);
    if str_eq(head, prefix) {
        assert(s@.skip(m as int) =~= rest@);
        Some(rest)
    } else {
        assert(head@ =~= s@.take(m as int));
        proof {
            if prefix@.is_prefix_of(s@) {
                assert(head@ =~= prefix@);
            }
        }
        None
    }
}

/// Whether a part occurs somewhere in a sequence.
pub open spec fn holds(s: Seq<char>, part: Seq<char>) -> bool {
    exists|i: int| occurs_at(s, part, i)
}

/// Whether a part occurs at one place of a sequence.
pub open spec fn occurs_at(s: Seq<char>, part: Seq<char>, i: int) -> bool {
    &&& 0 <= i
    &&& i + part.len() <= s.len()
    &&& s.subrange(i, i + part.len()) == part
}

/// What occurs in a piece occurs in the whole.
pub proof fn a_whole_holds_what_its_pieces_hold(
    before: Seq<char>,
    piece: Seq<char>,
    after: Seq<char>,
    part: Seq<char>,
)
    requires
        holds(piece, part),
    ensures
        holds(before + piece + after, part),
{
    let i = choose|i: int| occurs_at(piece, part, i);
    let whole = before + piece + after;
    let at = before.len() + i;
    assert(whole.subrange(at, at + part.len()) =~= piece.subrange(i, i + part.len()));
    assert(occurs_at(whole, part, at));
}

/// Among the first `n` characters of a sequence none is `a` with `b` after it.
pub(crate) open spec fn pairless(s: Seq<char>, a: char, b: char, n: nat) -> bool
    decreases n,
{
    n == 0 || (!(s[n - 1] == a && s[n as int] == b) && pairless(s, a, b, (n - 1) as nat))
}

proof fn lemma_pairless_at(s: Seq<char>, a: char, b: char, n: nat, i: int)
    requires
        pairless(s, a, b, n),
        0 <= i < n,
    ensures
        !(s[i] == a && s[i + 1] == b),
    decreases n,
{
    if i < n - 1 {
        lemma_pairless_at(s, a, b, (n - 1) as nat, i);
    }
}

/// A sequence without the first two characters of a part side by side does not
/// hold the part.
pub(crate) proof fn lemma_pairless_holds_not(s: Seq<char>, part: Seq<char>)
    requires
        part.len() >= 2,
        s.len() >= 1,
        pairless(s, part[0], part[1], (s.len() - 1) as nat),
    ensures
        !holds(s, part),
{
    if holds(s, part) {
        let i = choose|i: int| occurs_at(s, part, i);
        let found = s.subrange(i, i + part.len());
        assert(found[0] == s[i] && found[1] == s[i + 1]);
        lemma_pairless_at(s, part[0], part[1], (s.len() - 1) as nat, i);
    }
}

/// The pieces between the separators, in order. There is always at least one,
/// and a piece may be empty.
pub open spec fn split_on(s: Seq<char>, separator: char) -> Seq<Seq<char>>
    decreases s.len(),
{
    if s.len() == 0 {
        seq![Seq::<char>::empty()]
    } else {
        let before = split_on(s.drop_last(), separator);
        if s.last() == separator {
            before.push(Seq::<char>::empty())
        } else {
            before.drop_last().push(before.last().push(s.last()))
        }
    }
}

proof fn lemma_split_on_nonempty(s: Seq<char>, separator: char)
    ensures
        split_on(s, separator).len() > 0,
    decreases s.len(),
{
    if s.len() > 0 {
        lemma_split_on_nonempty(s.drop_last(), separator);
    }
}

proof fn lemma_first_piece(s: Seq<char>, separator: char, i: int)
    requires
        0 <= i <= s.len(),
        forall|k: int| 0 <= k < i ==> #[trigger] s[k] != separator,
        i < s.len() ==> s[i] == separator,
    ensures
        split_on(s, separator)[0] == s.take(i),
        i == s.len() ==> split_on(s, separator).len() == 1,
    decreases s.len(),
{
    lemma_split_on_nonempty(s, separator);
    if s.len() == 0 {
        assert(s.take(0) =~= Seq::<char>::empty());
    } else if i == s.len() {
        lemma_first_piece(s.drop_last(), separator, i - 1);
        assert(s.last() == s[i - 1]);
        assert(s.drop_last().take(i - 1).push(s.last()) =~= s.take(i));
    } else {
        lemma_split_on_nonempty(s.drop_last(), separator);
        lemma_first_piece(s.drop_last(), separator, i);
        assert(s.drop_last().take(i) =~= s.take(i));
        if i < s.len() - 1 {
            lemma_second_piece(s.drop_last(), separator, i);
        } else {
            assert(s.last() == separator);
        }
    }
}

proof fn lemma_second_piece(s: Seq<char>, separator: char, i: int)
    requires
        0 <= i < s.len(),
        s[i] == separator,
    ensures
        split_on(s, separator).len() >= 2,
    decreases s.len(),
{
    lemma_split_on_nonempty(s.drop_last(), separator);
    if i < s.len() - 1 {
        lemma_second_piece(s.drop_last(), separator, i);
    }
}

/// What precedes the first separator is the first piece, whatever follows.
pub proof fn the_first_piece_precedes_the_separator(
    first: Seq<char>,
    rest: Seq<char>,
    separator: char,
)
    requires
        !first.contains(separator),
    ensures
        split_on(first, separator) == seq![first],
        split_on(first.push(separator) + rest, separator)[0] == first,
{
    let whole = first.push(separator) + rest;
    let n = first.len() as int;
    assert forall|k: int| 0 <= k < n implies #[trigger] whole[k] != separator by {
        assert(first[k] == whole[k]);
    }
    lemma_first_piece(whole, separator, n);
    assert(whole.take(n) =~= first);
    lemma_first_piece(first, separator, n);
    assert(first.take(n) =~= first);
    assert(split_on(first, separator) =~= seq![first]);
}

/// The piece before the first separator: the whole string if there is none.
pub fn first_piece(s: &str, separator: char) -> (res: &str)
    ensures
        res@ == split_on(s@, separator)[0],
{
    let chars = chars_of(s);
    let n: usize = chars.len();
    let mut i: usize = 0;
    while i < n && chars[i] != separator
        invariant
            i <= n,
            n == chars@.len(),
            chars@ == s@,
            forall|k: int| 0 <= k < i ==> #[trigger] s@[k] != separator,
        decreases n - i,
    {
        i = i + 1;
    }
    proof {
        lemma_first_piece(s@, separator, i as int);
        assert(s@.take(i as int) =~= s@.subrange(0, i as int));
    }
    s.substring_char(0, i)
}

/// The pieces that still hold something once trimmed, each trimmed, in order.
pub open spec fn listed(pieces: Seq<Seq<char>>) -> Seq<Seq<char>>
    decreases pieces.len(),
{
    if pieces.len() == 0 {
        Seq::empty()
    } else {
        let before = listed(pieces.drop_last());
        let piece = trimmed(pieces.last());
        if piece.len() == 0 {
            before
        } else {
            before.push(piece)
        }
    }
}

/// A comma-separated list: every piece trimmed, the empty ones left out.
pub fn comma_list(s: &str) -> (res: Vec<String>)
    ensures
        res.deep_view() == listed(split_on(s@, ',')),
{
    let chars = chars_of(s);
    let n: usize = chars.len();
    let mut res: Vec<String> = Vec::new();
    let mut start: usize = 0;
    let mut i: usize = 0;
    assert(s@.take(0) =~= Seq::<char>::empty());
    assert(split_on(s@.take(0), ',').drop_last() =~= Seq::<Seq<char>>::empty());
    assert(res.deep_view() =~= Seq::<Seq<char>>::empty());
    assert(s@.subrange(0, 0) =~= Seq::<char>::empty());
    while i < n
        invariant
            start <= i <= n,
            n == chars@.len(),
            chars@ == s@,
            split_on(s@.take(i as int), ',').len() > 0,
            res.deep_view() == listed(split_on(s@.take(i as int), ',').drop_last()),
            split_on(s@.take(i as int), ',').last() == s@.subrange(start as int, i as int),
        decreases n - i,
    {
        let ghost before = split_on(s@.take(i as int), ',');
        let ghost after = split_on(s@.take(i + 1), ',');
        assert(s@.take(i + 1).drop_last() =~= s@.take(i as int));
        assert(s@.take(i + 1).last() == s@[i as int]);
        if chars[i] == ',' {
            let piece = trim(s.substring_char(start, i));
            let ghost old_res = res.deep_view();
            if !piece.is_empty() {
                res.push(piece.to_owned());
                assert(res.deep_view() =~= old_res.push(piece@));
            }
            start = i + 1;
            assert(after.drop_last() =~= before);
            assert(s@.subrange(start as int, i + 1) =~= Seq::<char>::empty());
        } else {
            assert(after.drop_last() =~= before.drop_last());
            assert(s@.subrange(start as int, i + 1) =~= s@.subrange(start as int, i as int).push(
                s@[i as int],
            ));
        }
        i = i + 1;
    }
    assert(s@.take(n as int) =~= s@);
    let piece = trim(s.substring_char(start, n));
    let ghost old_res = res.deep_view();
    if !piece.is_empty() {
        res.push(piece.to_owned());
        assert(res.deep_view() =~= old_res.push(piece@));
    }
    res
}

// --- letter case ------------------------------------------------------------

/// An upper-case ASCII letter as its lower-case counterpart; any other
/// character as it is.
pub open spec fn ascii_lower(c: char) -> char {
    if 'A' <= c && c <= 'Z' {
        ((c as u8) + 32) as char
    } else {
        c
    }
}

/// Whether a string is `word` once its ASCII letters are in lower case.
pub fn reads_as(s: &str, word: &str) -> (res: bool)
    ensures
        res == (s@.map_values(|c: char| ascii_lower(c)) == word@),
{
    let x = chars_of(s);
    let y = chars_of(word);
    let ghost lowered = s@.map_values(|c: char| ascii_lower(c));
    if x.len() != y.len() {
        return false;
    }
    let mut i: usize = 0;
    while i < x.len()
        invariant
            x@ == s@,
            y@ == word@,
            x@.len() == y@.len(),
            i <= x@.len(),
            lowered == s@.map_values(|c: char| ascii_lower(c)),
            forall|j: int| 0 <= j < i ==> lowered[j] == y@[j],
        decreases x@.len() - i,
    {
        let c = x[i];
        let lower: char = if 'A' <= c && c <= 'Z' {
            ((c as u8) + 32) as char
        } else {
            c
        };
        assert(lowered[i as int] == lower);
        if lower != y[i] {
            return false;
        }
        i = i + 1;
    }
    assert(lowered =~= word@);
    true
}

// --- decimal numbers --------------------------------------------------------

/// The digit of a value below ten.
pub open spec fn digit_char(d: nat) -> char {
    (('0' as u8) + d) as char
}

/// A number written in decimal, without leading zeros.
pub open spec fn decimal(n: nat) -> Seq<char>
    decreases n,
{
    if n < 10 {
        seq![digit_char(n)]
    } else {
        decimal(n / 10).push(digit_char(n % 10))
    }
}

fn digit(d: usize) -> (res: &'static str)
    requires
        d < 10,
    ensures
        res@ == seq![digit_char(d as nat)],
{
    proof {
        reveal_strlit("0");
        reveal_strlit("1");
        reveal_strlit("2");
        reveal_strlit("3");
        reveal_strlit("4");
        reveal_strlit("5");
        reveal_strlit("6");
        reveal_strlit("7");
        reveal_strlit("8");
        reveal_strlit("9");
    }
    let res: &'static str = match d {
        0 => "0",
        1 => "1",
        2 => "2",
        3 => "3",
        4 => "4",
        5 => "5",
        6 => "6",
        7 => "7",
        8 => "8",
        _ => "9",
    };
    assert(res@ =~= seq![digit_char(d as nat)]);
    res
}

/// A number written in decimal.
pub fn to_decimal(n: usize) -> (res: String)
    ensures
        res@ == decimal(n as nat),
    decreases n,
{
    if n < 10 {
        digit(n).to_owned()
    } else {
        let res = to_decimal(n / 10).concat(digit(n % 10));
        assert(res@ =~= decimal(n as nat));
        res
    }
}

/// Whether a character is one of the ten ASCII digits.
pub open spec fn is_digit(c: char) -> bool {
    '0' <= c && c <= '9'
}

/// The number a sequence of digits stands for.
pub open spec fn digits_value(s: Seq<char>) -> nat
    decreases s.len(),
{
    if s.len() == 0 {
        0
    } else {
        digits_value(s.drop_last()) * 10 + (s.last() as nat - '0' as nat) as nat
    }
}

/// The sequence without the one `+` it may start with.
pub open spec fn unsigned_digits(s: Seq<char>) -> Seq<char> {
    if s.len() > 0 && s[0] == '+' {
        s.skip(1)
    } else {
        s
    }
}

/// An unsigned number of at most `max`: an optional `+`, then digits and
/// nothing else, at least one of them.
pub open spec fn unsigned_value(s: Seq<char>, max: nat) -> Option<nat> {
    let digits = unsigned_digits(s);
    if digits.len() > 0 && all_digits(digits) && digits_value(digits) <= max {
        Some(digits_value(digits))
    } else {
        None
    }
}

/// Every character is an ASCII digit.
pub open spec fn all_digits(s: Seq<char>) -> bool {
    forall|i: int| 0 <= i < s.len() ==> is_digit(#[trigger] s[i])
}

proof fn lemma_digits_value_grows(s: Seq<char>, i: int)
    requires
        0 <= i <= s.len(),
        all_digits(s),
    ensures
        digits_value(s.take(i)) <= digits_value(s),
    decreases s.len() - i,
{
    if i == s.len() {
        assert(s.take(i) =~= s);
    } else {
        lemma_digits_value_grows(s.drop_last(), i);
        assert(s.drop_last().take(i) =~= s.take(i));
        assert(is_digit(s[s.len() - 1]));
    }
}

/// Reads an unsigned number of at most `max`.
pub fn parse_unsigned(s: &str, max: u64) -> (res: Option<u64>)
    ensures
        match res {
            Some(v) => unsigned_value(s@, max as nat) == Some(v as nat),
            None => unsigned_value(s@, max as nat) is None,
        },
{
    let chars = chars_of(s);
    let n: usize = chars.len();
    let start: usize = if n > 0 && chars[0] == '+' {
        1
    } else {
        0
    };
    let ghost digits = s@.skip(start as int);
    assert(start == 0 ==> digits =~= s@);
    assert(digits == unsigned_digits(s@));
    if start == n {
        return None;
    }
    let mut value: u64 = 0;
    let mut i: usize = start;
    assert(digits.take(0) =~= Seq::<char>::empty());
    while i < n
        invariant
            start <= i <= n,
            start <= 1,
            n == chars@.len(),
            chars@ == s@,
            digits == s@.skip(start as int),
            digits == unsigned_digits(s@),
            digits.len() > 0,
            forall|k: int| 0 <= k < i - start ==> is_digit(#[trigger] digits[k]),
            value == digits_value(digits.take(i - start)),
            value <= max,
        decreases n - i,
    {
        let c = chars[i];
        assert(c == digits[i - start]);
        if c < '0' || c > '9' {
            assert(!is_digit(digits[i - start]));
            return None;
        }
        let d: u64 = (c as u64) - ('0' as u64);
        let ghost prefix = digits.take(i + 1 - start);
        assert(prefix.drop_last() =~= digits.take(i - start));
        assert(digits_value(prefix) == value * 10 + d);
        proof {
            if value * 10 + d > max {
                if all_digits(digits) {
                    lemma_digits_value_grows(digits, i + 1 - start);
                }
            }
        }
        if value > max / 10 {
            assert(value * 10 + d > max);
            return None;
        }
        if d > max || value * 10 > max - d {
            return None;
        }
        value = value * 10 + d;
        i = i + 1;
    }
    assert(digits.take(n - start) =~= digits);
    Some(value)
}

} // verus!
