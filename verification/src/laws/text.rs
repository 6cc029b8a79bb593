//! What the text operations give back.
use crate::text::{
    after_prefix, all_digits, ascii_lower, blank, chars_of, comma_list, decimal, digit_char,
    digits_value, first_piece, is_blank, is_digit, is_white_space, listed, parse_unsigned, reads_as,
    split_on, str_eq, strip_prefix, the_first_piece_precedes_the_separator, to_decimal, trim,
    trimmed, trimmed_end, trimmed_start, trimming_empties_only_blanks, unsigned_digits,
};
use vstd::prelude::*;

verus! {

/// `inner` is what is left of `s` without the white space around it: a
/// stretch of it with nothing but white space before and after, and with white
/// space at neither end.
pub open spec fn is_trimmed(s: Seq<char>, inner: Seq<char>) -> bool {
    &&& exists|i: int|
        #![trigger s.subrange(i, i + inner.len())]
        {
            &&& 0 <= i
            &&& i + inner.len() <= s.len()
            &&& s.subrange(i, i + inner.len()) == inner
            &&& forall|k: int|
                0 <= k < s.len() && !(i <= k < i + inner.len()) ==> is_white_space(#[trigger] s[k])
        }
    &&& inner.len() > 0 ==> !is_white_space(inner[0]) && !is_white_space(inner.last())
}

proof fn lemma_trimmed_start_is_a_tail(s: Seq<char>) -> (i: int)
    ensures
        0 <= i <= s.len(),
        trimmed_start(s) == s.skip(i),
        forall|k: int| 0 <= k < i ==> is_white_space(#[trigger] s[k]),
    decreases s.len(),
{
    if s.len() > 0 && is_white_space(s[0]) {
        let rest = s.drop_first();
        let j = lemma_trimmed_start_is_a_tail(rest);
        assert(rest.skip(j) =~= s.skip(j + 1));
        assert forall|k: int| 0 <= k < j + 1 implies is_white_space(#[trigger] s[k]) by {
            if k > 0 {
                assert(rest[k - 1] == s[k]);
            }
        }
        j + 1
    } else {
        assert(s.skip(0) =~= s);
        0
    }
}

proof fn lemma_trimmed_end_is_a_head(s: Seq<char>) -> (j: int)
    ensures
        0 <= j <= s.len(),
        trimmed_end(s) == s.take(j),
        forall|k: int| j <= k < s.len() ==> is_white_space(#[trigger] s[k]),
    decreases s.len(),
{
    if s.len() > 0 && is_white_space(s.last()) {
        let j = lemma_trimmed_end_is_a_head(s.drop_last());
        assert(s.drop_last().take(j) =~= s.take(j));
        assert forall|k: int| j <= k < s.len() implies is_white_space(#[trigger] s[k]) by {
            if k < s.len() - 1 {
                assert(s.drop_last()[k] == s[k]);
            }
        }
        j
    } else {
        assert(s.take(s.len() as int) =~= s);
        s.len() as int
    }
}

/// Trimming leaves the stretch between the white space at either end, and
/// nothing else of it is lost.
pub proof fn trimming_takes_off_white_space_and_nothing_else(s: Seq<char>)
    ensures
        is_trimmed(s, trimmed(s)),
{
    let i = lemma_trimmed_start_is_a_tail(s);
    let head = s.skip(i);
    let j = lemma_trimmed_end_is_a_head(head);
    crate::text::trimmed_text_is_tight(s);
    let inner = trimmed(s);
    assert(inner =~= s.subrange(i, i + inner.len()));
    assert forall|k: int| 0 <= k < s.len() && !(i <= k < i + inner.len()) implies is_white_space(
        #[trigger] s[k],
    ) by {
        if k >= i + inner.len() {
            assert(head[k - i] == s[k]);
        }
    }
}

/// What trimming leaves is determined: no two texts are left of one.
pub proof fn trimming_leaves_one_text(s: Seq<char>, a: Seq<char>, b: Seq<char>)
    requires
        is_trimmed(s, a),
        is_trimmed(s, b),
    ensures
        a == b,
{
    let i = choose|i: int|
        #![trigger s.subrange(i, i + a.len())]
        0 <= i && i + a.len() <= s.len() && s.subrange(i, i + a.len()) == a && forall|k: int|
            0 <= k < s.len() && !(i <= k < i + a.len()) ==> is_white_space(#[trigger] s[k]);
    let j = choose|j: int|
        #![trigger s.subrange(j, j + b.len())]
        0 <= j && j + b.len() <= s.len() && s.subrange(j, j + b.len()) == b && forall|k: int|
            0 <= k < s.len() && !(j <= k < j + b.len()) ==> is_white_space(#[trigger] s[k]);
    if a.len() > 0 {
        assert(a[0] == s[i]);
        assert(a.last() == s[i + a.len() - 1]);
        assert(j <= i < j + b.len());
        assert(j <= i + a.len() - 1 < j + b.len());
    }
    if b.len() > 0 {
        assert(b[0] == s[j]);
        assert(b.last() == s[j + b.len() - 1]);
        assert(i <= j < i + a.len());
        assert(i <= j + b.len() - 1 < i + a.len());
    }
    assert(a =~= b);
}

/// `trim` gives back the string without the white space around it.
pub proof fn trim_gives_the_text_between(s: &str, res: &str)
    requires
        call_ensures(trim, (s,), res),
    ensures
        is_trimmed(s@, res@),
{
    trimming_takes_off_white_space_and_nothing_else(s@);
}

/// `blank` holds of nothing but white space.
pub proof fn blank_text_is_white_space_throughout(s: &str, res: bool)
    requires
        call_ensures(blank, (s,), res),
    ensures
        res <==> forall|i: int| 0 <= i < s@.len() ==> is_white_space(#[trigger] s@[i]),
{
    trimming_empties_only_blanks(s@);
}

/// Strings are equal exactly if they hold the same characters, and
/// `chars_of` gives those.
pub proof fn strings_are_their_characters(a: &str, b: &str, same: bool, chars: Vec<char>)
    requires
        call_ensures(str_eq, (a, b), same),
        call_ensures(chars_of, (a,), chars),
    ensures
        same <==> a@ == b@,
        chars@ == a@,
{
}

/// A prefix that is taken off and the rest make the whole; none is taken off
/// where no rest would.
pub proof fn a_prefix_and_the_rest_make_the_whole(s: &str, prefix: &str, res: Option<&str>)
    requires
        call_ensures(strip_prefix, (s, prefix), res),
    ensures
        res matches Some(rest) ==> s@ == prefix@ + rest@,
        res is None ==> forall|rest: Seq<char>| s@ != #[trigger] (prefix@ + rest),
{
    if res is Some {
        assert(s@ =~= prefix@ + s@.skip(prefix@.len() as int));
    } else {
        assert forall|rest: Seq<char>| s@ != #[trigger] (prefix@ + rest) by {
            if s@ == prefix@ + rest {
                assert(s@.subrange(0, prefix@.len() as int) =~= prefix@);
                assert(after_prefix(s@, prefix@) is Some);
            }
        }
    }
}

proof fn lemma_first_of_split(s: Seq<char>, separator: char) -> (i: int)
    ensures
        0 <= i <= s.len(),
        !s.take(i).contains(separator),
        split_on(s, separator)[0] == s.take(i),
        i < s.len() ==> s[i] == separator,
{
    if s.contains(separator) {
        let i = s.index_of_first(separator)->0;
        s.index_of_first_ensures(separator);
        let first = s.take(i);
        let rest = s.skip(i + 1);
        assert(!first.contains(separator)) by {
            assert forall|k: int| 0 <= k < first.len() implies first[k] != separator by {
                assert(first[k] == s[k]);
            }
        }
        the_first_piece_precedes_the_separator(first, rest, separator);
        assert(first.push(separator) + rest =~= s);
        i
    } else {
        the_first_piece_precedes_the_separator(s, Seq::empty(), separator);
        assert(s.take(s.len() as int) =~= s);
        s.len() as int
    }
}

/// The first piece runs up to the first separator, or to the end.
pub proof fn the_first_piece_runs_to_the_separator(s: &str, separator: char, res: &str)
    requires
        call_ensures(first_piece, (s, separator), res),
    ensures
        !res@.contains(separator),
        res@.len() <= s@.len(),
        res@ == s@.take(res@.len() as int),
        res@.len() < s@.len() ==> s@[res@.len() as int] == separator,
{
    let i = lemma_first_of_split(s@, separator);
}

proof fn lemma_split_nonempty(s: Seq<char>, separator: char)
    ensures
        split_on(s, separator).len() > 0,
    decreases s.len(),
{
    if s.len() > 0 {
        lemma_split_nonempty(s.drop_last(), separator);
    }
}

proof fn lemma_split_joins(a: Seq<char>, b: Seq<char>, separator: char)
    ensures
        split_on(a.push(separator) + b, separator) == split_on(a, separator) + split_on(
            b,
            separator,
        ),
    decreases b.len(),
{
    let whole = a.push(separator) + b;
    lemma_split_nonempty(a, separator);
    if b.len() == 0 {
        assert(whole =~= a.push(separator));
        assert(whole.drop_last() =~= a);
        assert(split_on(whole, separator) =~= split_on(a, separator) + split_on(b, separator));
    } else {
        let head = b.drop_last();
        lemma_split_joins(a, head, separator);
        lemma_split_nonempty(head, separator);
        assert(whole.drop_last() =~= a.push(separator) + head);
        assert(whole.last() == b.last());
        let x = split_on(a, separator);
        let y = split_on(head, separator);
        assert((x + y).last() == y.last());
        assert((x + y).drop_last() =~= x + y.drop_last());
        assert(split_on(whole, separator) =~= x + split_on(b, separator));
    }
}

proof fn lemma_listed_joins(a: Seq<Seq<char>>, b: Seq<Seq<char>>)
    ensures
        listed(a + b) == listed(a) + listed(b),
    decreases b.len(),
{
    if b.len() == 0 {
        assert(a + b =~= a);
        assert(listed(a) + listed(b) =~= listed(a));
    } else {
        lemma_listed_joins(a, b.drop_last());
        assert((a + b).drop_last() =~= a + b.drop_last());
        assert((a + b).last() == b.last());
        assert(listed(a + b) =~= listed(a) + listed(b));
    }
}

/// A list without a comma is its one entry without the white space around it,
/// or nothing if it is blank.
pub proof fn a_list_of_one_is_its_entry(s: &str, res: Vec<String>)
    requires
        call_ensures(comma_list, (s,), res),
        !s@.contains(','),
    ensures
        is_blank(s@) ==> res@.len() == 0,
        !is_blank(s@) ==> res@.len() == 1 && is_trimmed(s@, res@[0]@),
{
    the_first_piece_precedes_the_separator(s@, Seq::empty(), ',');
    trimming_empties_only_blanks(s@);
    trimming_takes_off_white_space_and_nothing_else(s@);
    let pieces = split_on(s@, ',');
    assert(pieces.drop_last() =~= Seq::<Seq<char>>::empty());
    assert(listed(pieces.drop_last()) =~= Seq::<Seq<char>>::empty());
    assert(res.deep_view() == listed(pieces));
    assert(res.deep_view().len() == res@.len());
    if !is_blank(s@) {
        assert(res.deep_view()[0] == res@[0]@);
    }
}

/// A list of two lists with a comma between them is the one followed by the
/// other.
pub proof fn a_comma_joins_two_lists(
    a: &str,
    b: &str,
    both: &str,
    left: Vec<String>,
    right: Vec<String>,
    res: Vec<String>,
)
    requires
        call_ensures(comma_list, (a,), left),
        call_ensures(comma_list, (b,), right),
        call_ensures(comma_list, (both,), res),
        both@ == a@.push(',') + b@,
    ensures
        res.deep_view() == left.deep_view() + right.deep_view(),
{
    lemma_split_joins(a@, b@, ',');
    lemma_listed_joins(split_on(a@, ','), split_on(b@, ','));
}

/// A string reads as a word exactly if each of its characters is the one of
/// the word, or the capital of it.
pub proof fn reading_ignores_capitals_alone(s: &str, word: &str, res: bool)
    requires
        call_ensures(reads_as, (s, word), res),
        forall|i: int| 0 <= i < word@.len() ==> !('A' <= #[trigger] word@[i] && word@[i] <= 'Z'),
    ensures
        res <==> s@.len() == word@.len() && forall|i: int|
            0 <= i < s@.len() ==> #[trigger] s@[i] == word@[i] || ('A' <= s@[i] && s@[i] <= 'Z'
                && s@[i] as int + 32 == word@[i] as int),
{
    let lowered = s@.map_values(|c: char| ascii_lower(c));
    if res {
        assert forall|i: int| 0 <= i < s@.len() implies #[trigger] s@[i] == word@[i] || ('A'
            <= s@[i] && s@[i] <= 'Z' && s@[i] as int + 32 == word@[i] as int) by {
            assert(lowered[i] == word@[i]);
        }
    }
    if s@.len() == word@.len() && forall|i: int|
        0 <= i < s@.len() ==> #[trigger] s@[i] == word@[i] || ('A' <= s@[i] && s@[i] <= 'Z'
            && s@[i] as int + 32 == word@[i] as int) {
        assert(lowered =~= word@) by {
            assert forall|i: int| 0 <= i < s@.len() implies lowered[i] == word@[i] by {
                assert(s@[i] == word@[i] || s@[i] as int + 32 == word@[i] as int);
                assert(!('A' <= word@[i] && word@[i] <= 'Z'));
            }
        }
    }
}

/// A number below ten is written as its digit, and one more digit behind a
/// number makes it ten times that and the digit.
pub proof fn numbers_are_written_digit_by_digit(
    n: usize,
    d: usize,
    more: usize,
    of_n: String,
    of_d: String,
    of_more: String,
)
    requires
        call_ensures(to_decimal, (n,), of_n),
        call_ensures(to_decimal, (d,), of_d),
        call_ensures(to_decimal, (more,), of_more),
        d < 10,
        n > 0,
        more == 10 * n + d,
    ensures
        of_d@.len() == 1,
        of_d@[0] as int == '0' as int + d,
        of_more@ == of_n@ + of_d@,
{
    assert(more as nat / 10 == n as nat && more as nat % 10 == d as nat);
    assert(of_more@ =~= of_n@ + of_d@);
}

proof fn lemma_decimal_reads_back(n: nat)
    ensures
        decimal(n).len() > 0,
        all_digits(decimal(n)),
        digits_value(decimal(n)) == n,
    decreases n,
{
    let d = n % 10;
    assert(is_digit(digit_char(d)));
    assert(digit_char(d) as nat - '0' as nat == d);
    if n < 10 {
        assert(decimal(n).drop_last() =~= Seq::<char>::empty());
        assert(digits_value(decimal(n).drop_last()) == 0);
    } else {
        lemma_decimal_reads_back(n / 10);
        let head = decimal(n / 10);
        assert(decimal(n).drop_last() =~= head);
        assert forall|i: int| 0 <= i < decimal(n).len() implies is_digit(
            #[trigger] decimal(n)[i],
        ) by {
            if i < head.len() {
                assert(head[i] == decimal(n)[i]);
            }
        }
    }
}

/// A number that is written is read back, if it is no larger than allowed;
/// otherwise nothing is read.
pub proof fn a_written_number_is_read_back(
    n: usize,
    max: u64,
    text: String,
    s: &str,
    res: Option<u64>,
)
    requires
        call_ensures(to_decimal, (n,), text),
        s@ == text@,
        call_ensures(parse_unsigned, (s, max), res),
    ensures
        n <= max ==> res == Some(n as u64),
        n > max ==> res is None,
{
    lemma_decimal_reads_back(n as nat);
    assert(is_digit(s@[0]));
    assert(unsigned_digits(s@) == s@);
}

/// However large, a number in decimal is read exactly if it is no larger than
/// allowed.
pub proof fn a_number_is_read_up_to_its_bound(n: nat, max: u64, s: &str, res: Option<u64>)
    requires
        s@ == decimal(n),
        call_ensures(parse_unsigned, (s, max), res),
    ensures
        n <= max ==> res == Some(n as u64),
        n > max ==> res is None,
{
    lemma_decimal_reads_back(n);
    assert(is_digit(s@[0]));
    assert(unsigned_digits(s@) == s@);
}

proof fn lemma_leading_zero(s: Seq<char>)
    requires
        all_digits(s),
    ensures
        all_digits(seq!['0'] + s),
        digits_value(seq!['0'] + s) == digits_value(s),
    decreases s.len(),
{
    let z = seq!['0'] + s;
    assert forall|i: int| 0 <= i < z.len() implies is_digit(#[trigger] z[i]) by {
        if i > 0 {
            assert(z[i] == s[i - 1]);
        }
    }
    if s.len() == 0 {
        assert(z.drop_last() =~= Seq::<char>::empty());
        assert(digits_value(z.drop_last()) == 0);
    } else {
        let head = s.drop_last();
        assert forall|i: int| 0 <= i < head.len() implies is_digit(#[trigger] head[i]) by {
            assert(head[i] == s[i]);
        }
        lemma_leading_zero(head);
        assert(z.drop_last() =~= seq!['0'] + head);
        assert(z.last() == s.last());
    }
}

/// A zero before a number, and one `+` before it, make no difference.
pub proof fn zeros_and_a_plus_in_front_do_not_count(
    s: &str,
    zero: &str,
    plus: &str,
    max: u64,
    res: Option<u64>,
    of_zero: Option<u64>,
    of_plus: Option<u64>,
)
    requires
        s@.len() > 0,
        forall|i: int| 0 <= i < s@.len() ==> '0' <= #[trigger] s@[i] && s@[i] <= '9',
        zero@ == seq!['0'] + s@,
        plus@ == seq!['+'] + s@,
        call_ensures(parse_unsigned, (s, max), res),
        call_ensures(parse_unsigned, (zero, max), of_zero),
        call_ensures(parse_unsigned, (plus, max), of_plus),
    ensures
        of_zero == res,
        of_plus == res,
{
    assert forall|i: int| 0 <= i < s@.len() implies is_digit(#[trigger] s@[i]) by {}
    lemma_leading_zero(s@);
    assert(is_digit(s@[0]));
    assert(unsigned_digits(s@) == s@);
    assert(unsigned_digits(zero@) == zero@);
    assert(plus@.skip(1) =~= s@);
}

/// Nothing but digits is a number: any other character, but for a `+` in
/// front, makes it unreadable, and so does having no digit at all.
pub proof fn only_digits_are_a_number(s: &str, max: u64, i: int, res: Option<u64>)
    requires
        call_ensures(parse_unsigned, (s, max), res),
        s@.len() == 0 || (s@.len() == 1 && s@[0] == '+') || (0 <= i < s@.len() && !('0' <= s@[i]
            && s@[i] <= '9') && !(i == 0 && s@[0] == '+')),
    ensures
        res is None,
{
    let digits = unsigned_digits(s@);
    if 0 <= i < s@.len() && !('0' <= s@[i] && s@[i] <= '9') && !(i == 0 && s@[0] == '+') {
        if s@[0] == '+' {
            assert(digits[i - 1] == s@[i]);
            assert(!is_digit(digits[i - 1]));
        } else {
            assert(!is_digit(digits[i]));
        }
    }
}

} // verus!
