//! Plain text helpers on which prompts are built: line terminators,
//! whitespace trimming and joining.
use vstd::prelude::*;
use vstd::string::*;

verus! {

/// How many characters of line terminator end `s`: a final `'\n'`, with the
/// `'\r'` before it if there is one, or a lone final `'\r'`.
pub open spec fn line_end_len(s: Seq<char>) -> nat {
    if s.len() >= 1 && s.last() == '\n' {
        if s.len() >= 2 && s[s.len() - 2] == '\r' {
            2
        } else {
            1
        }
    } else if s.len() >= 1 && s.last() == '\r' {
        1
    } else {
        0
    }
}

/// `s` without its line terminator.
pub open spec fn body_of(s: Seq<char>) -> Seq<char> {
    s.subrange(0, s.len() - line_end_len(s))
}

/// The line terminator that ends `s` (empty if there is none).
pub open spec fn line_end_of(s: Seq<char>) -> Seq<char> {
    s.subrange(s.len() - line_end_len(s), s.len() as int)
}

/// Removes the line terminator from the end of `s` and returns it.
pub fn chomp(s: &mut String) -> (r: String)
    ensures
        final(s)@ == body_of(old(s)@),
        r@ == line_end_of(old(s)@),
        old(s)@ == final(s)@ + r@,
{
    let n = s.as_str().unicode_len();
    let mut cut: usize = 0;
    if n >= 1 && s.as_str().get_char(n - 1) == '\n' {
        cut = 1;
        if n >= 2 && s.as_str().get_char(n - 2) == '\r' {
            cut = 2;
        }
    } else if n >= 1 && s.as_str().get_char(n - 1) == '\r' {
        cut = 1;
    }
    let body = String::from_str(s.as_str().substring_char(0, n - cut));
    let end = String::from_str(s.as_str().substring_char(n - cut, n));
    proof {
        assert(old(s)@ =~= body@ + end@);
    }
    *s = body;
    end
}

/// Characters with the Unicode `White_Space` property, the ones that
/// `char::is_whitespace` reports.
pub open spec fn is_white(c: char) -> bool {
    let u = c as u32;
    (0x9 <= u <= 0xd) || u == 0x20 || u == 0x85 || u == 0xa0 || u == 0x1680 || (0x2000 <= u
        <= 0x200a) || u == 0x2028 || u == 0x2029 || u == 0x202f || u == 0x205f || u == 0x3000
}

/// Every character of `s` is whitespace (true of the empty text).
pub open spec fn is_blank(s: Seq<char>) -> bool {
    forall|i: int| 0 <= i < s.len() ==> is_white(#[trigger] s[i])
}

/// `s` without its leading whitespace.
pub open spec fn trim_start(s: Seq<char>) -> Seq<char>
    decreases s.len(),
{
    if s.len() > 0 && is_white(s[0]) {
        trim_start(s.drop_first())
    } else {
        s
    }
}

/// `s` without its trailing whitespace.
pub open spec fn trim_end(s: Seq<char>) -> Seq<char>
    decreases s.len(),
{
    if s.len() > 0 && is_white(s.last()) {
        trim_end(s.drop_last())
    } else {
        s
    }
}

/// `s` without its leading and trailing whitespace.
pub open spec fn trimmed(s: Seq<char>) -> Seq<char> {
    trim_end(trim_start(s))
}

proof fn lemma_trim_start_blank(s: Seq<char>)
    ensures
        trim_start(s).len() == 0 <==> is_blank(s),
        trim_start(s).len() > 0 ==> !is_white(trim_start(s)[0]),
    decreases s.len(),
{
    if s.len() > 0 && is_white(s[0]) {
        lemma_trim_start_blank(s.drop_first());
        if is_blank(s.drop_first()) {
            assert forall|i: int| 0 <= i < s.len() implies is_white(#[trigger] s[i]) by {
                if i > 0 {
                    assert(s[i] == s.drop_first()[i - 1]);
                }
            }
        }
        if is_blank(s) {
            assert forall|i: int| 0 <= i < s.drop_first().len() implies is_white(
                #[trigger] s.drop_first()[i],
            ) by {
                assert(s.drop_first()[i] == s[i + 1]);
            }
        }
    } else if s.len() > 0 {
        assert(!is_white(s[0]));
    }
}

proof fn lemma_trim_end_empty(s: Seq<char>)
    ensures
        trim_end(s).len() == 0 <==> is_blank(s),
    decreases s.len(),
{
    if s.len() > 0 && is_white(s.last()) {
        lemma_trim_end_empty(s.drop_last());
        if is_blank(s.drop_last()) {
            assert forall|i: int| 0 <= i < s.len() implies is_white(#[trigger] s[i]) by {
                if i < s.len() - 1 {
                    assert(s[i] == s.drop_last()[i]);
                }
            }
        }
        if is_blank(s) {
            assert forall|i: int| 0 <= i < s.drop_last().len() implies is_white(
                #[trigger] s.drop_last()[i],
            ) by {
                assert(s.drop_last()[i] == s[i]);
            }
        }
    } else if s.len() > 0 {
        assert(!is_white(s.last()));
    }
}

/// Trimming leaves nothing exactly when the text is all whitespace.
pub proof fn lemma_trimmed_empty_iff_blank(s: Seq<char>)
    ensures
        trimmed(s).len() == 0 <==> is_blank(s),
{
    let t = trim_start(s);
    lemma_trim_start_blank(s);
    lemma_trim_end_empty(t);
    if t.len() > 0 {
        assert(!is_white(t[0]));
        assert(!is_blank(t));
    } else {
        assert(is_blank(t));
    }
}

/// Relies on `str::trim`: the slice of `s` without leading and trailing
/// characters that have the Unicode `White_Space` property.
#[verifier::external_body]
pub(crate) fn trim(s: &str) -> (r: &str)
    ensures
        r@ == trimmed(s@),
{
    s.trim()
}

/// The views of a sequence of strings.
pub open spec fn views(v: Seq<String>) -> Seq<Seq<char>> {
    v.map_values(|x: String| x@)
}

/// `items` written one after another with `sep` between each two of them.
pub open spec fn joined(items: Seq<Seq<char>>, sep: Seq<char>) -> Seq<char>
    decreases items.len(),
{
    if items.len() == 0 {
        Seq::empty()
    } else if items.len() == 1 {
        items[0]
    } else {
        joined(items.drop_last(), sep) + sep + items.last()
    }
}

/// Writes `items` one after another with `sep` between each two of them.
pub fn join(items: &Vec<String>, sep: &str) -> (r: String)
    ensures
        r@ == joined(views(items@), sep@),
{
    let mut r = String::new();
    let n = items.len();
    let mut i: usize = 0;
    while i < n
        invariant
            n == items@.len(),
            0 <= i <= n,
            r@ == joined(views(items@).take(i as int), sep@),
        decreases n - i,
    {
        let ghost before = views(items@).take(i as int);
        let ghost after = views(items@).take(i + 1);
        assert(after.drop_last() =~= before);
        assert(after.last() == items@[i as int]@);
        if i > 0 {
            r.append(sep);
        } else {
            assert(before.len() == 0);
        }
        r.append(items[i].as_str());
        i = i + 1;
    }
    assert(views(items@).take(n as int) =~= views(items@));
    r
}

} // verus!
