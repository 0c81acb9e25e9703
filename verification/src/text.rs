//! Character-level helpers: trimming, splitting, case conversion and the
//! token pieces (string literals, identifiers) that the generated code needs.
use vstd::prelude::*;


verus! {

/// `String::push` appends one character at the end of the string.
pub assume_specification[ String::push ](s: &mut String, ch: char)
    ensures
        final(s)@ == old(s)@.push(ch),
;

/// A text made only of printable ASCII characters other than `"` and `\`:
/// its string literal needs no escape.
pub open spec fn is_plain(s: Seq<char>) -> bool {
    forall|i: int| 0 <= i < s.len() ==> ' ' <= #[trigger] s[i] <= '~' && s[i] != '"' && s[i] != '\\'
}

/// The string literal of a text that needs no escape: the text in quotes.
pub open spec fn plain_literal(s: Seq<char>) -> Seq<char> {
    seq!['"'] + s + seq!['"']
}

/// Writes `s` as a Rust string literal with `proc_macro2::Literal::string`.
/// How escapes are written depends on whether the process runs inside the
/// compiler; what holds in every case is that the text is quoted, and that a
/// text needing no escape is written as itself in quotes. Nothing is said of
/// the escapes of other texts.
#[verifier::external_body]
pub(crate) fn str_literal(s: &str) -> (res: String)
    ensures
        res@.len() >= 2,
        res@[0] == '"',
        res@.last() == '"',
        is_plain(s@) ==> res@ == plain_literal(s@),
{
    proc_macro2::Literal::string(s).to_string()
}

/// The white space that every Rust lexer skips between tokens.
pub open spec fn is_blank(c: char) -> bool {
    c == ' ' || c == '\t' || c == '\n' || c == '\r'
}

/// The text without its leading blanks.
pub open spec fn blank_start(s: Seq<char>) -> Seq<char>
    decreases s.len(),
{
    if s.len() > 0 && is_blank(s[0]) {
        blank_start(s.drop_first())
    } else {
        s
    }
}

/// The text without its trailing blanks.
pub open spec fn blank_end(s: Seq<char>) -> Seq<char>
    decreases s.len(),
{
    if s.len() > 0 && is_blank(s.last()) {
        blank_end(s.drop_last())
    } else {
        s
    }
}

/// The text without leading and trailing blanks.
pub open spec fn blank_trim(s: Seq<char>) -> Seq<char> {
    blank_end(blank_start(s))
}

/// An ASCII identifier: a letter or `_`, then letters, digits or `_`; `_`
/// alone is none.
pub open spec fn is_ascii_ident(t: Seq<char>) -> bool {
    &&& t.len() > 0
    &&& t != seq!['_']
    &&& ('a' <= t[0] <= 'z' || 'A' <= t[0] <= 'Z' || t[0] == '_')
    &&& forall|i: int|
        1 <= i < t.len() ==> ('a' <= #[trigger] t[i] <= 'z' || 'A' <= t[i] <= 'Z' || '0' <= t[i]
            <= '9' || t[i] == '_')
}

/// The words that `syn` refuses as an identifier.
pub open spec fn is_keyword(t: Seq<char>) -> bool {
    ||| t == "abstract"@ ||| t == "as"@ ||| t == "async"@ ||| t == "await"@
    ||| t == "become"@ ||| t == "box"@ ||| t == "break"@ ||| t == "const"@
    ||| t == "continue"@ ||| t == "crate"@ ||| t == "do"@ ||| t == "dyn"@
    ||| t == "else"@ ||| t == "enum"@ ||| t == "extern"@ ||| t == "false"@
    ||| t == "final"@ ||| t == "fn"@ ||| t == "for"@ ||| t == "if"@ ||| t == "impl"@
    ||| t == "in"@ ||| t == "let"@ ||| t == "loop"@ ||| t == "macro"@
    ||| t == "match"@ ||| t == "mod"@ ||| t == "move"@ ||| t == "mut"@
    ||| t == "override"@ ||| t == "priv"@ ||| t == "pub"@ ||| t == "ref"@
    ||| t == "return"@ ||| t == "Self"@ ||| t == "self"@ ||| t == "static"@
    ||| t == "struct"@ ||| t == "super"@ ||| t == "trait"@ ||| t == "true"@
    ||| t == "try"@ ||| t == "type"@ ||| t == "typeof"@ ||| t == "unsafe"@
    ||| t == "unsized"@ ||| t == "use"@ ||| t == "virtual"@ ||| t == "where"@
    ||| t == "while"@ ||| t == "yield"@
}

/// What every run of `parse_ident` on `v` gives: a text that is, up to
/// blanks around it, an ASCII identifier other than a keyword, parses as that
/// identifier.
pub open spec fn ident_outcome(v: Seq<char>, o: Option<Seq<char>>) -> bool {
    is_ascii_ident(blank_trim(v)) && !is_keyword(blank_trim(v)) ==> o == Some(blank_trim(v))
}

/// Parses `s` as a Rust identifier with `syn::parse_str::<syn::Ident>`,
/// returning the identifier's text, or `None` when syn rejects the input.
/// The lexer (the compiler's inside a macro, proc-macro2's outside)
/// decides the other inputs; only the plain ASCII case is stated.
#[verifier::external_body]
pub(crate) fn parse_ident(s: &str) -> (res: Option<String>)
    ensures
        ident_outcome(s@, res.deep_view()),
{
    match syn::parse_str::<syn::Ident>(s) {
        Ok(ident) => Some(ident.to_string()),
        Err(_) => None,
    }
}

/// Two texts are equal, character for character.
pub fn str_eq(a: &str, b: &str) -> (res: bool)
    ensures
        res == (a@ == b@),
{
    let x = String::from_str(a);
    let y = String::from_str(b);
    x == y
}

/// Copies a text into a new `String`.
pub fn to_string(s: &str) -> (res: String)
    ensures
        res@ == s@,
{
    String::from_str(s)
}

/// Unicode `White_Space`, the characters that `str::trim` removes.
pub open spec fn is_white_space(c: char) -> bool {
    ||| '\u{9}' <= c <= '\u{d}'
    ||| c == ' '
    ||| c == '\u{85}'
    ||| c == '\u{a0}'
    ||| c == '\u{1680}'
    ||| '\u{2000}' <= c <= '\u{200a}'
    ||| c == '\u{2028}'
    ||| c == '\u{2029}'
    ||| c == '\u{202f}'
    ||| c == '\u{205f}'
    ||| c == '\u{3000}'
}

/// Tests a character for Unicode `White_Space`.
pub fn white_space(c: char) -> (res: bool)
    ensures
        res == is_white_space(c),
{
    ('\u{9}' <= c && c <= '\u{d}') || c == ' ' || c == '\u{85}' || c == '\u{a0}' || c == '\u{1680}'
        || ('\u{2000}' <= c && c <= '\u{200a}') || c == '\u{2028}' || c == '\u{2029}' || c
        == '\u{202f}' || c == '\u{205f}' || c == '\u{3000}'
}

/// The characters stripped at the ends: double quotes when `quotes` holds,
/// white space otherwise.
pub open spec fn strips(quotes: bool, c: char) -> bool {
    if quotes {
        c == '"'
    } else {
        is_white_space(c)
    }
}

/// The text without its leading characters that `strips(p, _)`.
pub open spec fn strip_start(s: Seq<char>, p: bool) -> Seq<char>
    decreases s.len(),
{
    if s.len() > 0 && strips(p, s[0]) {
        strip_start(s.drop_first(), p)
    } else {
        s
    }
}

/// The text without its trailing characters that `strips(p, _)`.
pub open spec fn strip_end(s: Seq<char>, p: bool) -> Seq<char>
    decreases s.len(),
{
    if s.len() > 0 && strips(p, s.last()) {
        strip_end(s.drop_last(), p)
    } else {
        s
    }
}

/// `str::trim`: the text without leading and trailing white space.
pub open spec fn spec_trim(s: Seq<char>) -> Seq<char> {
    strip_end(strip_start(s, false), false)
}

/// `trim_matches('"')`: the text without leading and trailing double quotes.
pub open spec fn spec_trim_quotes(s: Seq<char>) -> Seq<char> {
    strip_end(strip_start(s, true), true)
}

proof fn lemma_strip_start_skip(s: Seq<char>, i: int, p: bool)
    requires
        0 <= i <= s.len(),
        forall|k: int| 0 <= k < i ==> strips(p, #[trigger] s[k]),
    ensures
        strip_start(s, p) == strip_start(s.subrange(i, s.len() as int), p),
    decreases i,
{
    if i > 0 {
        assert(s.drop_first() =~= s.subrange(1, s.len() as int));
        lemma_strip_start_skip(s.drop_first(), i - 1, p);
        assert(s.drop_first().subrange(i - 1, s.drop_first().len() as int) =~= s.subrange(
            i,
            s.len() as int,
        ));
    } else {
        assert(s.subrange(0, s.len() as int) =~= s);
    }
}

proof fn lemma_strip_end_take(s: Seq<char>, j: int, p: bool)
    requires
        0 <= j <= s.len(),
        forall|k: int| j <= k < s.len() ==> strips(p, #[trigger] s[k]),
    ensures
        strip_end(s, p) == strip_end(s.subrange(0, j), p),
    decreases s.len() - j,
{
    if j < s.len() {
        lemma_strip_end_take(s.drop_last(), j, p);
        assert(s.drop_last().subrange(0, j) =~= s.subrange(0, j));
    } else {
        assert(s.subrange(0, j) =~= s);
    }
}

/// Removes leading and trailing characters that satisfy `p`.
fn strip_both(s: &str, p: bool) -> (res: String)
    ensures
        res@ == strip_end(strip_start(s@, p), p),
{
    let n = s.unicode_len();
    let mut i: usize = 0;
    while i < n
        invariant
            n == s@.len(),
            i <= n,
            forall|k: int| 0 <= k < i ==> strips(p, #[trigger] s@[k]),
        ensures
            i <= n,
            forall|k: int| 0 <= k < i ==> strips(p, #[trigger] s@[k]),
            i < n ==> !strips(p, s@[i as int]),
        decreases n - i,
    {
        let c = s.get_char(i);
        let skip = if p {
            c == '"'
        } else {
            white_space(c)
        };
        if !skip {
            break ;
        }
        i = i + 1;
    }
    proof {
        lemma_strip_start_skip(s@, i as int, p);
        if i < n {
            assert(!strips(p, s@[i as int]));
            let t = s@.subrange(i as int, n as int);
            assert(t.len() > 0 && t[0] == s@[i as int]);
        } else {
            assert(s@.subrange(i as int, n as int).len() == 0);
        }
    }
    let ghost mid = strip_start(s@, p);
    assert(mid =~= s@.subrange(i as int, n as int));
    let mut j: usize = n;
    while j > i
        invariant
            n == s@.len(),
            i <= j <= n,
            mid =~= s@.subrange(i as int, n as int),
            forall|k: int| j <= k < n ==> strips(p, #[trigger] s@[k]),
        ensures
            i <= j <= n,
            forall|k: int| j <= k < n ==> strips(p, #[trigger] s@[k]),
            j > i ==> !strips(p, s@[j - 1]),
        decreases j,
    {
        let c = s.get_char(j - 1);
        let skip = if p {
            c == '"'
        } else {
            white_space(c)
        };
        if !skip {
            break ;
        }
        j = j - 1;
    }
    proof {
        let jj = (j - i) as int;
        assert forall|k: int| jj <= k < mid.len() implies strips(p, #[trigger] mid[k]) by {
            assert(mid[k] == s@[k + i]);
        }
        lemma_strip_end_take(mid, jj, p);
        let t = mid.subrange(0, jj);
        if jj > 0 {
            assert(t.last() == s@[j - 1]);
            assert(!strips(p, t.last()));
        }
    }
    let r = s.substring_char(i, j);
    assert(r@ =~= mid.subrange(0, (j - i) as int));
    to_string(r)
}

/// `str::trim`: removes leading and trailing Unicode white space.
pub fn trim(s: &str) -> (res: String)
    ensures
        res@ == spec_trim(s@),
{
    strip_both(s, false)
}

/// `trim_matches('"')`: removes leading and trailing double quotes.
pub fn trim_quotes(s: &str) -> (res: String)
    ensures
        res@ == spec_trim_quotes(s@),
{
    strip_both(s, true)
}

/// Whether `s` begins with `prefix`.
pub open spec fn has_prefix(s: Seq<char>, prefix: Seq<char>) -> bool {
    prefix.len() <= s.len() && s.take(prefix.len() as int) == prefix
}

/// Tests whether `s` begins with `prefix`.
pub fn starts_with(s: &str, prefix: &str) -> (res: bool)
    ensures
        res == has_prefix(s@, prefix@),
{
    let n = s.unicode_len();
    let m = prefix.unicode_len();
    if m > n {
        return false;
    }
    let head = s.substring_char(0, m);
    str_eq(head, prefix)
}

/// The text after its first `k` characters.
pub fn skip_chars(s: &str, k: usize) -> (res: String)
    requires
        k <= s@.len(),
    ensures
        res@ == s@.skip(k as int),
{
    let n = s.unicode_len();
    let tail = s.substring_char(k, n);
    assert(tail@ =~= s@.skip(k as int));
    to_string(tail)
}

/// An ASCII upper-case letter.
pub open spec fn is_upper(c: char) -> bool {
    'A' <= c <= 'Z'
}

/// The ASCII lower-case form of a character; other characters stay.
pub open spec fn lower(c: char) -> char {
    if is_upper(c) {
        ((c as u32) + 32) as char
    } else {
        c
    }
}

/// Converts an ASCII upper-case letter to lower case.
pub fn to_lower(c: char) -> (res: char)
    ensures
        res == lower(c),
{
    if 'A' <= c && c <= 'Z' {
        let b = c as u8;
        assert(b == c as u32);
        (b + 32) as char
    } else {
        c
    }
}

/// `snake_case` of a `CamelCase` name: every upper-case letter but the first
/// character is preceded by `_`, and all upper-case letters become lower case.
pub open spec fn spec_snake_case(s: Seq<char>) -> Seq<char>
    decreases s.len(),
{
    if s.len() == 0 {
        Seq::empty()
    } else if is_upper(s.last()) && s.len() > 1 {
        spec_snake_case(s.drop_last()) + seq!['_', lower(s.last())]
    } else {
        spec_snake_case(s.drop_last()).push(lower(s.last()))
    }
}

/// Converts a `CamelCase` name to `snake_case`.
pub fn snake_case(s: &str) -> (res: String)
    ensures
        res@ == spec_snake_case(s@),
{
    let n = s.unicode_len();
    let mut res = String::new();
    let mut i: usize = 0;
    while i < n
        invariant
            n == s@.len(),
            i <= n,
            res@ == spec_snake_case(s@.take(i as int)),
        decreases n - i,
    {
        let c = s.get_char(i);
        proof {
            let t = s@.take(i as int + 1);
            assert(t.drop_last() =~= s@.take(i as int));
            assert(t.last() == c);
        }
        if 'A' <= c && c <= 'Z' && i > 0 {
            res.push('_');
        }
        res.push(to_lower(c));
        proof {
            let t = s@.take(i as int + 1);
            if is_upper(c) && i > 0 {
                assert(spec_snake_case(t) =~= spec_snake_case(s@.take(i as int)) + seq!['_', lower(c)]);
            }
        }
        i = i + 1;
    }
    assert(s@.take(n as int) =~= s@);
    res
}

/// `str::split(',')`: the pieces between the commas, in order; a text
/// without commas is one piece, and an empty text is one empty piece.
pub open spec fn spec_split(s: Seq<char>) -> Seq<Seq<char>>
    decreases s.len(),
{
    if s.len() == 0 {
        seq![Seq::empty()]
    } else {
        let r = spec_split(s.drop_last());
        if s.last() == ',' {
            r.push(Seq::empty())
        } else {
            r.update(r.len() - 1, r.last().push(s.last()))
        }
    }
}

/// There is always at least one piece.
pub proof fn lemma_split_nonempty(s: Seq<char>)
    ensures
        spec_split(s).len() >= 1,
    decreases s.len(),
{
    if s.len() > 0 {
        lemma_split_nonempty(s.drop_last());
    }
}

/// Splits a text at every comma.
pub fn split_commas(s: &str) -> (res: Vec<String>)
    ensures
        res@.len() == spec_split(s@).len(),
        forall|k: int| 0 <= k < res@.len() ==> #[trigger] res@[k]@ == spec_split(s@)[k],
{
    let n = s.unicode_len();
    let mut pieces: Vec<String> = Vec::new();
    let mut cur = String::new();
    let mut i: usize = 0;
    while i < n
        invariant
            n == s@.len(),
            i <= n,
            pieces@.len() + 1 == spec_split(s@.take(i as int)).len(),
            forall|k: int|
                0 <= k < pieces@.len() ==> #[trigger] pieces@[k]@ == spec_split(
                    s@.take(i as int),
                )[k],
            cur@ == spec_split(s@.take(i as int)).last(),
        decreases n - i,
    {
        let c = s.get_char(i);
        let ghost t = s@.take(i as int + 1);
        proof {
            assert(t.drop_last() =~= s@.take(i as int));
            assert(t.last() == c);
            lemma_split_nonempty(s@.take(i as int));
        }
        if c == ',' {
            let done = cur;
            pieces.push(done);
            cur = String::new();
        } else {
            cur.push(c);
        }
        i = i + 1;
    }
    assert(s@.take(n as int) =~= s@);
    pieces.push(cur);
    pieces
}

/// A raw identifier's name without its `r#` marker; other names unchanged.
pub open spec fn spec_unraw(s: Seq<char>) -> Seq<char> {
    if s.len() >= 2 && s[0] == 'r' && s[1] == '#' {
        s.skip(2)
    } else {
        s
    }
}

/// Removes the `r#` marker of a raw identifier.
pub fn unraw(s: &str) -> (res: String)
    ensures
        res@ == spec_unraw(s@),
{
    let n = s.unicode_len();
    if n >= 2 && s.get_char(0) == 'r' && s.get_char(1) == '#' {
        skip_chars(s, 2)
    } else {
        to_string(s)
    }
}

/// The last path segment of a type's text before its generic arguments:
/// white space is ignored, `:` starts a new segment and `<` ends the scan.
/// The flag tells whether a `<` was met.
pub open spec fn spec_type_head(s: Seq<char>) -> (Seq<char>, bool)
    decreases s.len(),
{
    if s.len() == 0 {
        (Seq::empty(), false)
    } else {
        let (seg, stopped) = spec_type_head(s.drop_last());
        let c = s.last();
        if stopped || c == '<' {
            (seg, true)
        } else if c == ':' {
            (Seq::empty(), false)
        } else if is_white_space(c) {
            (seg, false)
        } else {
            (seg.push(c), false)
        }
    }
}

/// Computes the last path segment of a type's text, as `spec_type_head`.
pub fn type_head(s: &str) -> (res: String)
    ensures
        res@ == spec_type_head(s@).0,
{
    let n = s.unicode_len();
    let mut seg = String::new();
    let mut i: usize = 0;
    while i < n
        invariant
            n == s@.len(),
            i <= n,
            seg@ == spec_type_head(s@.take(i as int)).0,
            !spec_type_head(s@.take(i as int)).1,
        decreases n - i,
    {
        let c = s.get_char(i);
        let ghost t = s@.take(i as int + 1);
        proof {
            assert(t.drop_last() =~= s@.take(i as int));
            assert(t.last() == c);
        }
        if c == '<' {
            proof {
                lemma_type_head_stopped(s@, i as int + 1);
            }
            return seg;
        } else if c == ':' {
            seg = String::new();
        } else if !white_space(c) {
            seg.push(c);
        }
        i = i + 1;
    }
    assert(s@.take(n as int) =~= s@);
    seg
}

/// Once the scan has stopped, later characters change nothing.
proof fn lemma_type_head_stopped(s: Seq<char>, i: int)
    requires
        0 <= i <= s.len(),
        spec_type_head(s.take(i)).1,
    ensures
        spec_type_head(s) == spec_type_head(s.take(i)),
    decreases s.len() - i,
{
    if i < s.len() {
        assert(s.take(i + 1).drop_last() =~= s.take(i));
        lemma_type_head_stopped(s, i + 1);
    } else {
        assert(s.take(i) =~= s);
    }
}

} // verus!
