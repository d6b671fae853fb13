use vstd::prelude::*;
use vstd::string::*;

verus! {

/// `w` space characters.
pub open spec fn spaces(w: nat) -> Seq<char> {
    Seq::new(w, |i: int| ' ')
}

/// The characters of `s` after the first line's prefix: every line break is
/// followed by `w` spaces, every other character is kept.
pub open spec fn indent_rest(s: Seq<char>, w: nat) -> Seq<char>
    decreases s.len(),
{
    if s.len() == 0 {
        Seq::empty()
    } else {
        let piece = if s.last() == '\n' { seq!['\n'] + spaces(w) } else { seq![s.last()] };
        indent_rest(s.drop_last(), w) + piece
    }
}

/// `s` with every line, blank ones included, prefixed by `w` spaces.
pub open spec fn indented(s: Seq<char>, w: nat) -> Seq<char> {
    spaces(w) + indent_rest(s, w)
}

/// The placeholder when `s` is empty, else `s` itself.
pub open spec fn or_placeholder(s: Seq<char>, placeholder: Seq<char>) -> Seq<char> {
    if s.len() == 0 { placeholder } else { s }
}

/// The characters that `char::is_whitespace` accepts (Unicode White_Space).
pub open spec fn is_white(c: char) -> bool {
    ||| '\u{9}' <= c <= '\u{d}'
    ||| c == ' '
    ||| c == '\u{85}'
    ||| c == '\u{a0}'
    ||| c == '\u{1680}'
    ||| '\u{2000}' <= c <= '\u{200a}'
    ||| c == '\u{2028}'
    ||| c == '\u{2029}'
    ||| c == '\u{202f}'
    ||| c == '\u{205f}'
    ||| c == '\u{3000}'
}

/// `s` without its trailing whitespace.
pub open spec fn trimmed_end(s: Seq<char>) -> Seq<char>
    decreases s.len(),
{
    if s.len() > 0 && is_white(s.last()) {
        trimmed_end(s.drop_last())
    } else {
        s
    }
}

/// The pieces of `parts` in order, with `sep` between each two neighbours.
pub open spec fn joined(parts: Seq<Seq<char>>, sep: Seq<char>) -> Seq<char>
    decreases parts.len(),
{
    if parts.len() == 0 {
        Seq::empty()
    } else if parts.len() == 1 {
        parts[0]
    } else {
        joined(parts.drop_last(), sep) + sep + parts.last()
    }
}

pub proof fn lemma_joined_push(parts: Seq<Seq<char>>, sep: Seq<char>, p: Seq<char>)
    ensures
        joined(parts.push(p), sep) == if parts.len() == 0 { p } else { joined(parts, sep) + sep + p },
{
    assert(parts.push(p).drop_last() =~= parts);
}

fn is_whitespace(c: char) -> (r: bool)
    ensures
        r == is_white(c),
{
    ('\u{9}' <= c && c <= '\u{d}') || c == ' ' || c == '\u{85}' || c == '\u{a0}' || c == '\u{1680}'
        || ('\u{2000}' <= c && c <= '\u{200a}') || c == '\u{2028}' || c == '\u{2029}' || c
        == '\u{202f}' || c == '\u{205f}' || c == '\u{3000}'
}

/// A string of `w` spaces.
pub fn spaces_of(w: usize) -> (r: String)
    ensures
        r@ == spaces(w as nat),
{
    let mut r = String::new();
    let mut i: usize = 0;
    while i < w
        invariant
            i <= w,
            r@ == spaces(i as nat),
        decreases w - i,
    {
        proof {
            reveal_strlit(" ");
        }
        r.append(" ");
        i = i + 1;
        assert(r@ =~= spaces(i as nat));
    }
    r
}

/// Prefixes every line of `s`, blank ones included, with `indent` spaces.
pub fn make_indent(s: &str, indent: usize) -> (r: String)
    ensures
        r@ == indented(s@, indent as nat),
{
    let pad = spaces_of(indent);
    let mut r = pad.clone();
    let n = s.unicode_len();
    let mut i: usize = 0;
    while i < n
        invariant
            n == s@.len(),
            i <= n,
            pad@ == spaces(indent as nat),
            r@ == spaces(indent as nat) + indent_rest(s@.subrange(0, i as int), indent as nat),
        decreases n - i,
    {
        let c = s.get_char(i);
        if c == '\n' {
            proof {
                reveal_strlit("\n");
            }
            r.append("\n");
            r.append(pad.as_str());
        } else {
            r.append(s.substring_char(i, i + 1));
        }
        let ghost prev = s@.subrange(0, i as int);
        i = i + 1;
        assert(s@.subrange(0, i as int).drop_last() =~= prev);
        assert(r@ =~= spaces(indent as nat) + indent_rest(s@.subrange(0, i as int), indent as nat));
    }
    assert(s@.subrange(0, n as int) =~= s@);
    r
}

/// `s` without trailing whitespace.
pub fn trim_end(s: &str) -> (r: String)
    ensures
        r@ == trimmed_end(s@),
{
    let mut k = s.unicode_len();
    assert(s@ =~= s@.subrange(0, s@.len() as int));
    while k > 0 && is_whitespace(s.get_char(k - 1))
        invariant
            k <= s@.len(),
            trimmed_end(s@) == trimmed_end(s@.subrange(0, k as int)),
        decreases k,
    {
        assert(s@.subrange(0, k as int).drop_last() =~= s@.subrange(0, k - 1));
        k = k - 1;
    }
    String::from_str(s.substring_char(0, k))
}

/// Substitutes a placeholder for an empty text.
pub trait PlaceHolder: Sized + View<V = Seq<char>> {
    fn with_placeholder(self, placeholder: &str) -> (r: String)
        ensures
            r@ == or_placeholder(self@, placeholder@),
    ;
}

impl PlaceHolder for String {
    fn with_placeholder(self, placeholder: &str) -> (r: String) {
        if self.as_str().is_empty() {
            String::from_str(placeholder)
        } else {
            self
        }
    }
}

/// Whether two strings hold the same characters.
pub fn str_eq(a: &str, b: &str) -> (r: bool)
    ensures
        r == (a@ == b@),
{
    let n = a.unicode_len();
    if n != b.unicode_len() {
        return false;
    }
    let mut i: usize = 0;
    while i < n
        invariant
            n == a@.len(),
            n == b@.len(),
            i <= n,
            forall|j: int| 0 <= j < i ==> a@[j] == b@[j],
        decreases n - i,
    {
        if a.get_char(i) != b.get_char(i) {
            return false;
        }
        i = i + 1;
    }
    assert(a@ =~= b@);
    true
}

} // verus!
