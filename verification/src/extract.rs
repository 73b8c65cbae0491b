use vstd::prelude::*;

use crate::errors::IdlError;

verus! {

/// The whitespace characters the line scan skips over.
pub open spec fn is_space(c: char) -> bool {
    c == ' ' || c == '\t' || c == '\r'
}

/// The index of the first occurrence of the character at or after `from`, or
/// -1 if there is none.
pub open spec fn find_from(s: Seq<char>, c: char, from: int) -> int
    decreases s.len() - from,
{
    if from < 0 || from >= s.len() {
        -1
    } else if s[from] == c {
        from
    } else {
        find_from(s, c, from + 1)
    }
}

/// What the first occurrence means: everything before it differs from the
/// character, and a result of -1 means there is no occurrence at all.
pub proof fn lemma_find_from_props(s: Seq<char>, c: char, from: int)
    requires
        0 <= from,
    ensures
        find_from(s, c, from) == -1 ==> forall|j: int| from <= j < s.len() ==> s[j] != c,
        find_from(s, c, from) != -1 ==> from <= find_from(s, c, from) < s.len() && s[find_from(
            s,
            c,
            from,
        )] == c && forall|j: int| from <= j < find_from(s, c, from) ==> s[j] != c,
    decreases s.len() - from,
{
    if from < s.len() && s[from] != c {
        lemma_find_from_props(s, c, from + 1);
    }
}

/// The first occurrence is the position whose prefix holds no occurrence.
pub proof fn lemma_find_from_at(s: Seq<char>, c: char, from: int, t: int)
    requires
        0 <= from <= t < s.len(),
        forall|j: int| from <= j < t ==> s[j] != c,
        s[t] == c,
    ensures
        find_from(s, c, from) == t,
    decreases t - from,
{
    if from < t {
        lemma_find_from_at(s, c, from + 1, t);
    }
}

/// How many whitespace characters the line starts with.
pub open spec fn leading_ws(line: Seq<char>) -> nat
    decreases line.len(),
{
    if line.len() > 0 && is_space(line[0]) {
        1 + leading_ws(line.drop_first())
    } else {
        0
    }
}

/// The count of leading whitespace is the first non-whitespace position.
pub proof fn lemma_leading_ws_at(line: Seq<char>, k: int)
    requires
        0 <= k <= line.len(),
        forall|j: int| 0 <= j < k ==> is_space(line[j]),
        k == line.len() || !is_space(line[k]),
    ensures
        leading_ws(line) == k,
    decreases k,
{
    if k == 0 {
    } else {
        assert(is_space(line[0]));
        lemma_leading_ws_at(line.drop_first(), k - 1);
    }
}

/// A line matches when its content after leading whitespace begins with the
/// identifier-declaring macro token.
pub open spec fn line_matches(line: Seq<char>) -> bool {
    let t = "declare_id!"@;
    let k = leading_ws(line) as int;
    k + t.len() <= line.len() && line.subrange(k, k + t.len() as int) == t
}

/// The source split into lines at newline characters; the split keeps a final
/// empty line, which can never match the macro token.
pub open spec fn lines_of(s: Seq<char>) -> Seq<Seq<char>>
    decreases s.len(),
    via lines_of_dec
{
    let p = find_from(s, '\n', 0);
    if p == -1 {
        seq![s]
    } else {
        seq![s.subrange(0, p)] + lines_of(s.subrange(p + 1, s.len() as int))
    }
}

#[via_fn]
proof fn lines_of_dec(s: Seq<char>) {
    lemma_find_from_props(s, '\n', 0);
}

/// The index of the first line that matches the macro token, or -1 when no
/// line does.
pub open spec fn first_match(ls: Seq<Seq<char>>) -> int
    decreases ls.len(),
{
    if ls.len() == 0 {
        -1
    } else if line_matches(ls[0]) {
        0
    } else {
        let r = first_match(ls.drop_first());
        if r == -1 {
            -1
        } else {
            r + 1
        }
    }
}

proof fn lemma_first_match_range(ls: Seq<Seq<char>>)
    ensures
        first_match(ls) == -1 || 0 <= first_match(ls) < ls.len(),
    decreases ls.len(),
{
    if ls.len() > 0 && !line_matches(ls[0]) {
        lemma_first_match_range(ls.drop_first());
    }
}

proof fn lemma_first_match_none(ls: Seq<Seq<char>>)
    requires
        forall|i: int| 0 <= i < ls.len() ==> !line_matches(ls[i]),
    ensures
        first_match(ls) == -1,
    decreases ls.len(),
{
    if ls.len() > 0 {
        lemma_first_match_none(ls.drop_first());
    }
}

proof fn lemma_first_match_at(ls: Seq<Seq<char>>, i: int)
    requires
        0 <= i < ls.len(),
        forall|j: int| 0 <= j < i ==> !line_matches(ls[j]),
        line_matches(ls[i]),
    ensures
        first_match(ls) == i,
    decreases i,
{
    if i > 0 {
        lemma_first_match_at(ls.drop_first(), i - 1);
    }
}

/// What extraction yields on the matched line: the characters strictly
/// between the first quote and the next one, or a malformed-literal error
/// when the line has fewer than two quotes.
pub open spec fn extract_from_line(line: Seq<char>) -> Result<Seq<char>, IdlError> {
    let p = find_from(line, '"', 0);
    if p == -1 {
        Err(IdlError::MalformedLiteral)
    } else {
        let q = find_from(line, '"', p + 1);
        if q == -1 {
            Err(IdlError::MalformedLiteral)
        } else {
            Ok(line.subrange(p + 1, q))
        }
    }
}

/// What extraction yields on a whole source text: the quoted literal of the
/// first line matching the macro token, a macro-not-found error when no line
/// matches, or a malformed-literal error from the matched line.
pub open spec fn spec_extract(src: Seq<char>) -> Result<Seq<char>, IdlError> {
    let ls = lines_of(src);
    let m = first_match(ls);
    if m == -1 {
        Err(IdlError::MacroNotFound)
    } else {
        extract_from_line(ls[m])
    }
}

fn is_space_char(c: char) -> (r: bool)
    ensures
        r == is_space(c),
{
    c == ' ' || c == '\t' || c == '\r'
}

fn find_char(s: &str, c: char, from: usize) -> (r: Option<usize>)
    requires
        from <= s@.len(),
    ensures
        s@.len() <= usize::MAX,
        match r {
            Some(i) => find_from(s@, c, from as int) == i && from <= i < s@.len()
                && s@[i as int] == c,
            None => find_from(s@, c, from as int) == -1,
        },
    decreases s@.len() - from,
{
    if from == s.unicode_len() {
        None
    } else if s.get_char(from) == c {
        Some(from)
    } else {
        find_char(s, c, from + 1)
    }
}

fn skip_ws(line: &str) -> (k: usize)
    ensures
        k == leading_ws(line@),
        k <= line@.len(),
{
    let n = line.unicode_len();
    let mut i: usize = 0;
    while i < n && is_space_char(line.get_char(i))
        invariant
            i <= n,
            n == line@.len(),
            forall|j: int| 0 <= j < i ==> is_space(line@[j]),
        decreases n - i,
    {
        i = i + 1;
    }
    proof {
        lemma_leading_ws_at(line@, i as int);
    }
    i
}

fn has_token_at(line: &str, k: usize) -> (r: bool)
    requires
        k <= line@.len(),
    ensures
        r == (k + "declare_id!"@.len() <= line@.len() && line@.subrange(
            k as int,
            k as int + "declare_id!"@.len() as int,
        ) == "declare_id!"@),
{
    let token = "declare_id!";
    proof {
        reveal_strlit("declare_id!");
    }
    let tn = token.unicode_len();
    let n = line.unicode_len();
    if n - k < tn {
        return false;
    }
    let mut j: usize = 0;
    while j < tn
        invariant
            j <= tn,
            tn == token@.len(),
            n == line@.len(),
            k + tn <= n,
            token@ == "declare_id!"@,
            forall|jj: int| 0 <= jj < j ==> line@[k + jj] == token@[jj],
        decreases tn - j,
    {
        if line.get_char(k + j) != token.get_char(j) {
            proof {
                assert(line@.subrange(k as int, k as int + token@.len() as int)[j as int] == line@[
                    k + j
                ]);
            }
            return false;
        }
        j = j + 1;
    }
    proof {
        assert(line@.subrange(k as int, k as int + token@.len() as int) =~= token@);
    }
    true
}

fn line_matches_exec(line: &str) -> (r: bool)
    ensures
        r == line_matches(line@),
{
    let k = skip_ws(line);
    has_token_at(line, k)
}

fn extract_from_line_exec(line: &str) -> (r: Result<String, IdlError>)
    ensures
        match r {
            Ok(id) => extract_from_line(line@) == Ok::<Seq<char>, IdlError>(id@),
            Err(e) => extract_from_line(line@) == Err::<Seq<char>, IdlError>(e),
        },
{
    match find_char(line, '"', 0) {
        None => Err(IdlError::MalformedLiteral),
        Some(p) => match find_char(line, '"', p + 1) {
            None => Err(IdlError::MalformedLiteral),
            Some(q) => {
                let s = line.substring_char(p + 1, q);
                Ok(String::from_str(s))
            },
        },
    }
}

/// Scans the source text line by line and extracts the first quoted literal
/// of the first line whose trimmed start is the identifier-declaring macro
/// token; the first matching line wins even when later lines also match.
pub fn extract_program_id(source: &str) -> (r: Result<String, IdlError>)
    ensures
        match r {
            Ok(id) => spec_extract(source@) == Ok::<Seq<char>, IdlError>(id@),
            Err(e) => spec_extract(source@) == Err::<Seq<char>, IdlError>(e),
        },
    decreases source@.len(),
{
    let n = source.unicode_len();
    let nl = find_char(source, '\n', 0);
    let line = match nl {
        Some(p) => source.substring_char(0, p),
        None => source,
    };
    proof {
        if nl is Some {
            let p = nl->0 as int;
            assert(lines_of(source@) == seq![source@.subrange(0, p)] + lines_of(
                source@.subrange(p + 1, source@.len() as int),
            ));
            assert(lines_of(source@)[0] == line@);
        } else {
            assert(lines_of(source@) == seq![source@]);
            assert(lines_of(source@)[0] == line@);
        }
    }
    if line_matches_exec(line) {
        proof {
            lemma_first_match_at(lines_of(source@), 0);
        }
        extract_from_line_exec(line)
    } else {
        match nl {
            Some(p) => {
                let rest = source.substring_char(p + 1, n);
                let r = extract_program_id(rest);
                proof {
                    let ls = lines_of(source@);
                    let lsr = lines_of(rest@);
                    assert(ls.drop_first() =~= lsr);
                    lemma_first_match_range(lsr);
                    let mr = first_match(lsr);
                    if mr == -1 {
                        assert(first_match(ls) == -1);
                    } else {
                        assert(first_match(ls) == mr + 1);
                        assert(ls[mr + 1] == lsr[mr]);
                    }
                }
                r
            },
            None => {
                proof {
                    assert(lines_of(source@).drop_first() =~= Seq::<Seq<char>>::empty());
                    assert(first_match(Seq::<Seq<char>>::empty()) == -1);
                    assert(first_match(lines_of(source@)) == -1);
                }
                Err(IdlError::MacroNotFound)
            },
        }
    }
}

/// A line that declares the identifier — leading whitespace, the macro token,
/// an opening parenthesis and a quoted literal without embedded quotes —
/// standing after lines that do not match the token, makes extraction return
/// exactly that literal, whatever the surrounding lines hold.
pub proof fn lemma_extracts_declared_id(
    src: Seq<char>,
    i: int,
    ws: Seq<char>,
    x: Seq<char>,
    tail: Seq<char>,
)
    requires
        0 <= i < lines_of(src).len(),
        forall|j: int| 0 <= j < i ==> !line_matches(lines_of(src)[j]),
        forall|j: int| 0 <= j < ws.len() ==> is_space(ws[j]),
        forall|j: int| 0 <= j < x.len() ==> x[j] != '"',
        lines_of(src)[i] == ws + "declare_id!(\""@ + x + "\""@ + tail,
    ensures
        spec_extract(src) == Ok::<Seq<char>, IdlError>(x),
{
    let line = lines_of(src)[i];
    let lit = "declare_id!(\""@;
    reveal_strlit("declare_id!(\"");
    reveal_strlit("declare_id!");
    reveal_strlit("\"");
    let k = ws.len() as int;
    assert(lit.len() == 13);
    assert("\""@.len() == 1);
    assert(line.len() == k + 13 + x.len() + 1 + tail.len());
    assert forall|j: int| 0 <= j < k implies line[j] == ws[j] by {}
    assert forall|j: int| 0 <= j < 13 implies line[k + j] == lit[j] by {}
    assert forall|j: int| 0 <= j < x.len() implies line[k + 13 + j] == x[j] by {}
    assert(line[k + 13 + x.len()] == "\""@[0]);
    // the line matches the macro token
    assert(line[k] == lit[0]);
    assert(!is_space(line[k]));
    lemma_leading_ws_at(line, k);
    assert(line.subrange(k, k + 11) =~= "declare_id!"@);
    assert(line_matches(line));
    lemma_first_match_at(lines_of(src), i);
    // the first quote of the line is the literal's opening quote
    assert forall|j: int| 0 <= j < k + 12 implies line[j] != '"' by {
        if j < k {
            assert(is_space(line[j]));
        } else {
            assert(line[j] == lit[j - k]);
        }
    }
    assert(line[k + 12] == '"');
    lemma_find_from_at(line, '"', 0, k + 12);
    // the next quote closes the literal, right after the declared identifier
    assert forall|j: int| k + 13 <= j < k + 13 + x.len() implies line[j] != '"' by {
        assert(line[j] == x[j - (k + 13)]);
    }
    assert(line[k + 13 + x.len()] == '"');
    lemma_find_from_at(line, '"', k + 13, k + 13 + x.len());
    assert(line.subrange(k + 13, k + 13 + x.len()) =~= x);
}

/// When no line of the source matches the macro token, extraction fails with
/// the macro-not-found error, whatever else the source holds.
pub proof fn lemma_no_match_macro_not_found(src: Seq<char>)
    requires
        forall|i: int| 0 <= i < lines_of(src).len() ==> !line_matches(lines_of(src)[i]),
    ensures
        spec_extract(src) == Err::<Seq<char>, IdlError>(IdlError::MacroNotFound),
{
    lemma_first_match_none(lines_of(src));
}

} // verus!
