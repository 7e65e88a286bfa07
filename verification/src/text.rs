//! Plain text operations, stated over the characters of a string.
use vstd::prelude::*;
use vstd::string::*;

verus! {

/// `c` has the Unicode property `White_Space`.
pub open spec fn white_space(c: char) -> bool {
    ||| '\u{9}' <= c <= '\u{d}'
    ||| c == ' '
    ||| c == '\u{85}'
    ||| c == '\u{a0}'
    ||| c == '\u{1680}'
    ||| '\u{2000}' <= c <= '\u{200a}'
    ||| c == '\u{2028}'
    ||| c == '\u{2029}'
    ||| c == '\u{202f}'
    ||| c == '\u{205f}'
    ||| c == '\u{3000}'
}

/// `p` occurs somewhere in `s`.
pub open spec fn occurs(s: Seq<char>, p: Seq<char>) -> bool {
    exists|i: int| 0 <= i <= s.len() - p.len() && #[trigger] s.subrange(i, i + p.len()) == p
}

/// `s` without its leading white space.
pub open spec fn trim_start(s: Seq<char>) -> Seq<char>
    decreases s.len(),
{
    if s.len() > 0 && white_space(s[0]) {
        trim_start(s.drop_first())
    } else {
        s
    }
}

/// `s` without its trailing white space.
pub open spec fn trim_end(s: Seq<char>) -> Seq<char>
    decreases s.len(),
{
    if s.len() > 0 && white_space(s.last()) {
        trim_end(s.drop_last())
    } else {
        s
    }
}

/// `s` without the white space at both of its ends.
pub open spec fn trimmed(s: Seq<char>) -> Seq<char> {
    trim_end(trim_start(s))
}

/// The code point of `c`, an ASCII capital letter counted as its small letter.
pub open spec fn ascii_fold(c: char) -> int {
    if 'A' <= c <= 'Z' {
        c as int + 32
    } else {
        c as int
    }
}

/// `a` and `b` differ at most in the case of ASCII letters.
pub open spec fn same_ignoring_ascii_case(a: Seq<char>, b: Seq<char>) -> bool {
    &&& a.len() == b.len()
    &&& forall|i: int| 0 <= i < a.len() ==> ascii_fold(#[trigger] a[i]) == ascii_fold(b[i])
}

/// `s` followed by as many spaces as bring it to `width` characters.
pub open spec fn padded(s: Seq<char>, width: nat) -> Seq<char> {
    if s.len() >= width {
        s
    } else {
        s + Seq::new((width - s.len()) as nat, |i: int| ' ')
    }
}

/// The lines in order, with `separator` between each two.
pub open spec fn joined(lines: Seq<Seq<char>>, separator: Seq<char>) -> Seq<char>
    decreases lines.len(),
{
    if lines.len() == 0 {
        Seq::empty()
    } else if lines.len() == 1 {
        lines[0]
    } else {
        joined(lines.drop_last(), separator) + separator + lines.last()
    }
}

/// The texts of a list of strings.
pub open spec fn texts(lines: Seq<String>) -> Seq<Seq<char>> {
    lines.map_values(|line: String| line@)
}

/// The characters of a text.
pub fn chars_of(s: &str) -> (chars: Vec<char>)
    ensures
        chars@ == s@,
{
    let mut chars: Vec<char> = Vec::new();
    for c in it: s.chars()
        invariant
            it.seq() == s@,
            chars@ == s@.take(it.index()),
    {
        chars.push(c);
    }
    chars
}

/// Whether the two texts have the same characters.
pub fn same_text(a: &str, b: &str) -> (same: bool)
    ensures
        same == (a@ == b@),
{
    let x = chars_of(a);
    let y = chars_of(b);
    if x.len() != y.len() {
        return false;
    }
    for i in 0..x.len()
        invariant
            x@ == a@,
            y@ == b@,
            x.len() == y.len(),
            forall|j: int| 0 <= j < i ==> x@[j] == y@[j],
    {
        if x[i] != y[i] {
            return false;
        }
    }
    assert(a@ =~= b@);
    true
}

/// Whether `p` occurs somewhere in `s`.
pub fn contains_text(s: &str, p: &str) -> (found: bool)
    ensures
        found == occurs(s@, p@),
{
    let hay = chars_of(s);
    let needle = chars_of(p);
    if needle.len() > hay.len() {
        return false;
    }
    let last: usize = hay.len() - needle.len();
    let mut i: usize = 0;
    while i <= last
        invariant
            hay@ == s@,
            needle@ == p@,
            last == hay.len() - needle.len(),
            i <= last + 1,
            forall|k: int| 0 <= k < i ==> #[trigger] s@.subrange(k, k + p@.len()) != p@,
        decreases last + 1 - i,
    {
        let mut j: usize = 0;
        while j < needle.len() && hay[i + j] == needle[j]
            invariant
                hay@ == s@,
                needle@ == p@,
                last == hay.len() - needle.len(),
                i <= last,
                j <= needle.len(),
                forall|k: int| 0 <= k < j ==> s@[i + k] == p@[k],
            decreases needle.len() - j,
        {
            j += 1;
        }
        if j == needle.len() {
            assert(s@.subrange(i as int, i + p@.len()) =~= p@);
            return true;
        }
        assert(s@.subrange(i as int, i + p@.len())[j as int] != p@[j as int]);
        if i == last {
            return false;
        }
        i += 1;
    }
    false
}

/// The code point of `c`, an ASCII capital letter counted as its small letter.
fn fold(c: char) -> (code: u32)
    ensures
        code == ascii_fold(c),
{
    if 'A' <= c && c <= 'Z' {
        c as u32 + 32
    } else {
        c as u32
    }
}

/// Whether the two texts differ at most in the case of ASCII letters.
pub fn eq_ignore_ascii_case(a: &str, b: &str) -> (same: bool)
    ensures
        same == same_ignoring_ascii_case(a@, b@),
{
    let x = chars_of(a);
    let y = chars_of(b);
    if x.len() != y.len() {
        return false;
    }
    for i in 0..x.len()
        invariant
            x@ == a@,
            y@ == b@,
            x.len() == y.len(),
            forall|j: int| 0 <= j < i ==> ascii_fold(#[trigger] x@[j]) == ascii_fold(y@[j]),
    {
        if fold(x[i]) != fold(y[i]) {
            return false;
        }
    }
    true
}

/// Whether `c` has the Unicode property `White_Space`.
pub fn is_white_space(c: char) -> (white: bool)
    ensures
        white == white_space(c),
{
    ('\u{9}' <= c && c <= '\u{d}') || c == ' ' || c == '\u{85}' || c == '\u{a0}' || c == '\u{1680}'
        || ('\u{2000}' <= c && c <= '\u{200a}') || c == '\u{2028}' || c == '\u{2029}' || c
        == '\u{202f}' || c == '\u{205f}' || c == '\u{3000}'
}

/// The text without the white space at both of its ends.
pub fn trim(s: &str) -> (inner: &str)
    ensures
        inner@ == trimmed(s@),
{
    let chars = chars_of(s);
    let mut from: usize = 0;
    assert(s@.skip(0) =~= s@);
    while from < chars.len() && is_white_space(chars[from])
        invariant
            chars@ == s@,
            from <= chars.len(),
            trim_start(s@.skip(from as int)) == trim_start(s@),
        ensures
            from <= chars.len(),
            s@.skip(from as int) == trim_start(s@),
        decreases chars.len() - from,
    {
        assert(s@.skip(from as int).drop_first() =~= s@.skip(from + 1));
        from += 1;
    }
    let mut to: usize = chars.len();
    assert(s@.subrange(from as int, to as int) =~= s@.skip(from as int));
    while from < to && is_white_space(chars[to - 1])
        invariant
            chars@ == s@,
            from <= to <= chars.len(),
            trim_end(s@.subrange(from as int, to as int)) == trimmed(s@),
        ensures
            from <= to <= chars.len(),
            s@.subrange(from as int, to as int) == trimmed(s@),
        decreases to - from,
    {
        assert(s@.subrange(from as int, to as int).drop_last() =~= s@.subrange(
            from as int,
            to - 1,
        ));
        to -= 1;
    }
    s.substring_char(from, to)
}

/// The text followed by as many spaces as bring it to `width` characters.
pub fn pad(s: &str, width: usize) -> (wide: String)
    ensures
        wide@ == padded(s@, width as nat),
{
    let mut wide = s.to_string();
    let mut len: usize = chars_of(s).len();
    while len < width
        invariant
            len >= s@.len(),
            len == s@.len() || len <= width,
            wide@ == s@ + Seq::new((len - s@.len()) as nat, |i: int| ' '),
        decreases width - len,
    {
        proof {
            reveal_strlit(" ");
        }
        wide.append(" ");
        len += 1;
        assert(wide@ =~= s@ + Seq::new((len - s@.len()) as nat, |i: int| ' '));
    }
    assert(wide@ =~= padded(s@, width as nat));
    wide
}

/// The lines in order, with `separator` between each two.
pub fn join(lines: &Vec<String>, separator: &str) -> (text: String)
    ensures
        text@ == joined(texts(lines@), separator@),
{
    let mut text = String::new();
    for i in 0..lines.len()
        invariant
            text@ == joined(texts(lines@).take(i as int), separator@),
    {
        if i > 0 {
            text.append(separator);
        }
        text.append(lines[i].as_str());
        proof {
            let head = texts(lines@).take(i as int);
            let all = texts(lines@).take(i + 1);
            assert(all.drop_last() =~= head);
            assert(all.last() == lines@[i as int]@);
            assert(i == 0 ==> text@ =~= all[0]);
        }
    }
    assert(texts(lines@).take(lines@.len() as int) =~= texts(lines@));
    text
}

/// What is left of a text after trimming neither begins nor ends with white space.
pub proof fn lemma_trimmed_ends(s: Seq<char>)
    ensures
        trimmed(s).len() > 0 ==> !white_space(trimmed(s)[0]) && !white_space(trimmed(s).last()),
{
    lemma_trim_start(s);
    lemma_trim_end(trim_start(s));
}

/// White space around a text that has none at its ends is all that trimming removes.
pub proof fn law_trimming_removes_the_padding(
    before: Seq<char>,
    word: Seq<char>,
    after: Seq<char>,
)
    requires
        forall|i: int| 0 <= i < before.len() ==> white_space(#[trigger] before[i]),
        forall|i: int| 0 <= i < after.len() ==> white_space(#[trigger] after[i]),
        word.len() > 0 ==> !white_space(word[0]) && !white_space(word.last()),
    ensures
        trimmed(before + word + after) == word,
{
    lemma_skip_white_start(before, word + after);
    assert(before + word + after =~= before + (word + after));
    if word.len() == 0 {
        lemma_skip_white_start(after, Seq::empty());
        assert(after + Seq::<char>::empty() =~= word + after);
    } else {
        assert((word + after)[0] == word[0]);
        lemma_skip_white_end(word, after);
    }
}

proof fn lemma_skip_white_start(white: Seq<char>, rest: Seq<char>)
    requires
        forall|i: int| 0 <= i < white.len() ==> white_space(#[trigger] white[i]),
    ensures
        trim_start(white + rest) == trim_start(rest),
    decreases white.len(),
{
    if white.len() == 0 {
        assert(white + rest =~= rest);
    } else {
        let tail = white.drop_first();
        assert((white + rest)[0] == white[0]);
        assert((white + rest).drop_first() =~= tail + rest);
        assert forall|i: int| 0 <= i < tail.len() implies white_space(#[trigger] tail[i]) by {
            assert(tail[i] == white[i + 1]);
        }
        lemma_skip_white_start(tail, rest);
    }
}

proof fn lemma_skip_white_end(rest: Seq<char>, white: Seq<char>)
    requires
        forall|i: int| 0 <= i < white.len() ==> white_space(#[trigger] white[i]),
    ensures
        trim_end(rest + white) == trim_end(rest),
    decreases white.len(),
{
    if white.len() == 0 {
        assert(rest + white =~= rest);
    } else {
        let head = white.drop_last();
        assert((rest + white).last() == white.last());
        assert(white[white.len() - 1] == white.last());
        assert((rest + white).drop_last() =~= rest + head);
        assert forall|i: int| 0 <= i < head.len() implies white_space(#[trigger] head[i]) by {
            assert(head[i] == white[i]);
        }
        lemma_skip_white_end(rest, head);
    }
}

proof fn lemma_trim_start(s: Seq<char>)
    ensures
        trim_start(s).len() > 0 ==> !white_space(trim_start(s)[0]),
    decreases s.len(),
{
    if s.len() > 0 && white_space(s[0]) {
        lemma_trim_start(s.drop_first());
    }
}

proof fn lemma_trim_end(s: Seq<char>)
    ensures
        trim_end(s).len() > 0 ==> !white_space(trim_end(s).last()) && trim_end(s)[0] == s[0],
    decreases s.len(),
{
    if s.len() > 0 && white_space(s.last()) {
        lemma_trim_end(s.drop_last());
    }
}

/// One text occurs in another exactly where the other is made of it and of what stands
/// before and behind it.
pub proof fn law_occurrence_is_a_part(s: Seq<char>, p: Seq<char>)
    ensures
        occurs(s, p) <==> exists|before: Seq<char>, after: Seq<char>|
            s == #[trigger] (before + p + after),
{
    if occurs(s, p) {
        let i: int = choose|i: int|
            0 <= i <= s.len() - p.len() && #[trigger] s.subrange(i, i + p.len()) == p;
        assert(s =~= s.take(i) + s.subrange(i, i + p.len()) + s.skip(i + p.len()));
        assert(s == s.take(i) + p + s.skip(i + p.len()));
    }
    if exists|before: Seq<char>, after: Seq<char>| s == #[trigger] (before + p + after) {
        let (before, after): (Seq<char>, Seq<char>) = choose|before: Seq<char>, after: Seq<char>|
            s == #[trigger] (before + p + after);
        let i: int = before.len() as int;
        assert(s.subrange(i, i + p.len()) =~= p);
    }
}

/// What stands between two texts occurs in the whole.
pub proof fn lemma_part_occurs(before: Seq<char>, p: Seq<char>, after: Seq<char>)
    ensures
        occurs(before + p + after, p),
{
    law_occurrence_is_a_part(before + p + after, p);
}

/// A search finds a text exactly where it is a part of the other.
pub proof fn law_search_finds_parts_alone(s: &str, p: &str, found: bool)
    requires
        call_ensures(contains_text, (s, p), found),
    ensures
        found <==> exists|before: Seq<char>, after: Seq<char>|
            s@ == #[trigger] (before + p@ + after),
{
    law_occurrence_is_a_part(s@, p@);
}

/// Two texts are the same exactly where they agree in length and in each character.
pub proof fn law_same_text_compares_every_character(a: &str, b: &str, same: bool)
    requires
        call_ensures(same_text, (a, b), same),
    ensures
        same <==> a@.len() == b@.len() && forall|i: int|
            0 <= i < a@.len() ==> #[trigger] a@[i] == b@[i],
{
    if a@.len() == b@.len() && forall|i: int| 0 <= i < a@.len() ==> #[trigger] a@[i] == b@[i] {
        assert(a@ =~= b@);
    }
}

/// `a` and `b` are the same character, or the small and the capital form of one ASCII letter.
pub open spec fn same_letter(a: char, b: char) -> bool {
    ||| a == b
    ||| 'a' <= a <= 'z' && b as int == a as int - 32
    ||| 'a' <= b <= 'z' && a as int == b as int - 32
}

/// Two texts agree but for the case of ASCII letters exactly where they are of one length
/// and each two characters are the same, or the two forms of one ASCII letter.
pub proof fn law_only_the_case_of_ascii_letters_is_ignored(a: &str, b: &str, same: bool)
    requires
        call_ensures(eq_ignore_ascii_case, (a, b), same),
    ensures
        same <==> a@.len() == b@.len() && forall|i: int|
            0 <= i < a@.len() ==> same_letter(#[trigger] a@[i], b@[i]),
{
    assert(forall|x: char, y: char|
        ascii_fold(x) == ascii_fold(y) <==> #[trigger] same_letter(x, y));
    if same {
        assert forall|i: int| 0 <= i < a@.len() implies same_letter(#[trigger] a@[i], b@[i]) by {
            assert(ascii_fold(a@[i]) == ascii_fold(b@[i]));
        }
    }
    if a@.len() == b@.len() && forall|i: int|
        0 <= i < a@.len() ==> same_letter(#[trigger] a@[i], b@[i]) {
        assert forall|i: int| 0 <= i < a@.len() implies ascii_fold(#[trigger] a@[i]) == ascii_fold(
            b@[i],
        ) by {
            assert(same_letter(a@[i], b@[i]));
        }
    }
}

/// All characters are white space.
pub open spec fn blank(s: Seq<char>) -> bool {
    forall|i: int| 0 <= i < s.len() ==> white_space(#[trigger] s[i])
}

/// Trimming takes nothing but white space off the two ends, and leaves none there.
pub proof fn law_trimming_takes_white_space_alone(s: &str, inner: &str)
    requires
        call_ensures(trim, (s,), inner),
    ensures
        exists|before: Seq<char>, after: Seq<char>|
            s@ == #[trigger] (before + inner@ + after) && blank(before) && blank(after),
        inner@.len() > 0 ==> !white_space(inner@[0]) && !white_space(inner@.last()),
        inner@.len() == 0 <==> blank(s@),
{
    lemma_trimmed_parts(s@);
    lemma_trimmed_ends(s@);
    if blank(s@) {
        assert(Seq::<char>::empty() + Seq::<char>::empty() + s@ =~= s@);
        law_trimming_removes_the_padding(Seq::empty(), Seq::empty(), s@);
    }
    if inner@.len() == 0 {
        let (before, after): (Seq<char>, Seq<char>) = choose|before: Seq<char>, after: Seq<char>|
            s@ == #[trigger] (before + inner@ + after) && blank(before) && blank(after);
        assert forall|i: int| 0 <= i < s@.len() implies white_space(#[trigger] s@[i]) by {
            if i < before.len() {
                assert(s@[i] == before[i]);
            } else {
                assert(s@[i] == after[i - before.len()]);
            }
        }
    }
}

/// What is left after trimming stands between white space.
pub proof fn lemma_trimmed_parts(s: Seq<char>)
    ensures
        exists|before: Seq<char>, after: Seq<char>|
            s == #[trigger] (before + trimmed(s) + after) && blank(before) && blank(after),
{
    let mid = trim_start(s);
    lemma_trim_start_parts(s);
    lemma_trim_end_parts(mid);
    let before = s.take(s.len() - mid.len());
    let after = mid.skip(trimmed(s).len() as int);
    assert(s =~= before + mid);
    assert(mid =~= trimmed(s) + after);
    assert(s =~= before + trimmed(s) + after);
}

proof fn lemma_trim_start_parts(s: Seq<char>)
    ensures
        trim_start(s).len() <= s.len(),
        s.skip(s.len() - trim_start(s).len()) == trim_start(s),
        blank(s.take(s.len() - trim_start(s).len())),
    decreases s.len(),
{
    if s.len() > 0 && white_space(s[0]) {
        let rest = s.drop_first();
        lemma_trim_start_parts(rest);
        let n = s.len() - trim_start(s).len();
        assert(s.skip(n) =~= rest.skip(n - 1));
        assert forall|i: int| 0 <= i < n implies white_space(#[trigger] s.take(n)[i]) by {
            if i > 0 {
                assert(s.take(n)[i] == rest.take(n - 1)[i - 1]);
            }
        }
    } else {
        assert(s.skip(0) =~= s);
    }
}

proof fn lemma_trim_end_parts(s: Seq<char>)
    ensures
        trim_end(s).len() <= s.len(),
        s.take(trim_end(s).len() as int) == trim_end(s),
        blank(s.skip(trim_end(s).len() as int)),
    decreases s.len(),
{
    if s.len() > 0 && white_space(s.last()) {
        let rest = s.drop_last();
        lemma_trim_end_parts(rest);
        let n = trim_end(s).len() as int;
        assert(s.take(n) =~= rest.take(n));
        assert forall|i: int| 0 <= i < s.len() - n implies white_space(
            #[trigger] s.skip(n)[i],
        ) by {
            if i < s.len() - n - 1 {
                assert(s.skip(n)[i] == rest.skip(n)[i]);
            } else {
                assert(s.skip(n)[i] == s.last());
            }
        }
    } else {
        assert(s.take(s.len() as int) =~= s);
    }
}

/// Padding keeps the text in front, adds nothing but spaces, and adds as many as are
/// missing to the width.
pub proof fn law_padding_fills_with_spaces(s: &str, width: usize, wide: String)
    requires
        call_ensures(pad, (s, width), wide),
    ensures
        wide@.len() == (if s@.len() < width {
            width as nat
        } else {
            s@.len()
        }),
        forall|i: int| 0 <= i < s@.len() ==> #[trigger] wide@[i] == s@[i],
        forall|i: int| s@.len() <= i < wide@.len() ==> #[trigger] wide@[i] == ' ',
{
}

/// The texts of a list are those of its entries, one by one.
pub proof fn law_texts_are_those_of_the_entries(lines: Seq<String>)
    ensures
        texts(lines).len() == lines.len(),
        forall|i: int| 0 <= i < lines.len() ==> #[trigger] texts(lines)[i] == lines[i]@,
{
}

/// No lines make an empty text, and one line is that text itself.
pub proof fn law_few_lines_need_no_separator(lines: Vec<String>, separator: &str, text: String)
    requires
        call_ensures(join, (&lines, separator), text),
        lines@.len() <= 1,
    ensures
        lines@.len() == 0 ==> text@.len() == 0,
        lines@.len() == 1 ==> text@ == lines@[0]@,
{
}

/// One more line stands behind the others and one separator.
pub proof fn law_each_further_line_follows_a_separator(
    lines: Vec<String>,
    line: String,
    more: Vec<String>,
    separator: &str,
    text: String,
    longer: String,
)
    requires
        lines@.len() > 0,
        more@ == lines@.push(line),
        call_ensures(join, (&lines, separator), text),
        call_ensures(join, (&more, separator), longer),
    ensures
        longer@ == text@ + separator@ + line@,
{
    assert(texts(more@).drop_last() =~= texts(lines@));
}

/// The join of two lists of lines is the two joins with one separator between them.
pub proof fn law_joins_are_joined(a: Seq<Seq<char>>, b: Seq<Seq<char>>, separator: Seq<char>)
    requires
        a.len() > 0,
        b.len() > 0,
    ensures
        joined(a + b, separator) == joined(a, separator) + separator + joined(b, separator),
    decreases b.len(),
{
    assert((a + b).drop_last() =~= a + b.drop_last());
    assert((a + b).last() == b.last());
    if b.len() == 1 {
        assert(a + b.drop_last() =~= a);
    } else {
        law_joins_are_joined(a, b.drop_last(), separator);
    }
}

} // verus!
