//! Text utilities for assembling directive lines: whitespace trimming,
//! concatenation, line rendering, and decoding of subprocess output bytes.

use vstd::prelude::*;
use vstd::string::*;
use vstd::utf8::{decode_utf8, valid_utf8};

verus! {

/// The characters treated as whitespace when trimming: the Unicode
/// `White_Space` set, which is what `str::trim` goes by.
pub open spec fn is_ws(c: char) -> bool {
    let n = c as u32;
    (9 <= n && n <= 13) || n == 32 || n == 0x85 || n == 0xA0 || n == 0x1680 || (0x2000 <= n && n
        <= 0x200A) || n == 0x2028 || n == 0x2029 || n == 0x202F || n == 0x205F || n == 0x3000
}

fn is_ws_char(c: char) -> (r: bool)
    ensures
        r == is_ws(c),
{
    let n = c as u32;
    (9 <= n && n <= 13) || n == 32 || n == 0x85 || n == 0xA0 || n == 0x1680 || (0x2000 <= n && n
        <= 0x200A) || n == 0x2028 || n == 0x2029 || n == 0x202F || n == 0x205F || n == 0x3000
}

/// `s` with its leading whitespace removed.
pub open spec fn drop_leading_ws(s: Seq<char>) -> Seq<char>
    decreases s.len(),
{
    if s.len() > 0 && is_ws(s[0]) {
        drop_leading_ws(s.drop_first())
    } else {
        s
    }
}

/// `s` with its trailing whitespace removed.
pub open spec fn drop_trailing_ws(s: Seq<char>) -> Seq<char>
    decreases s.len(),
{
    if s.len() > 0 && is_ws(s.last()) {
        drop_trailing_ws(s.drop_last())
    } else {
        s
    }
}

/// `s` with surrounding whitespace removed.
pub open spec fn trimmed_view(s: Seq<char>) -> Seq<char> {
    drop_trailing_ws(drop_leading_ws(s))
}

proof fn lemma_drop_leading_is_suffix(s: Seq<char>, start: int)
    requires
        0 <= start <= s.len(),
        forall|k: int| 0 <= k < start ==> is_ws(s[k]),
        start < s.len() ==> !is_ws(s[start]),
    ensures
        drop_leading_ws(s) =~= s.subrange(start, s.len() as int),
    decreases start,
{
    if start == 0 {
        assert(s.len() > 0 ==> !is_ws(s[0]));
        assert(drop_leading_ws(s) == s);
        assert(s =~= s.subrange(0, s.len() as int));
    } else {
        assert(is_ws(s[0]));
        let t = s.drop_first();
        assert(forall|k: int| 0 <= k < start - 1 ==> is_ws(#[trigger] t[k]));
        assert(start - 1 < t.len() ==> !is_ws(t[start - 1]));
        lemma_drop_leading_is_suffix(t, start - 1);
        assert(t.subrange(start - 1, t.len() as int) =~= s.subrange(start, s.len() as int));
    }
}

proof fn lemma_drop_trailing_is_prefix(s: Seq<char>, end: int)
    requires
        0 <= end <= s.len(),
        forall|k: int| end <= k < s.len() ==> is_ws(s[k]),
        end > 0 ==> !is_ws(s[end - 1]),
    ensures
        drop_trailing_ws(s) =~= s.subrange(0, end),
    decreases s.len(),
{
    if end == s.len() {
        if s.len() > 0 {
            assert(!is_ws(s.last()));
        }
        assert(drop_trailing_ws(s) == s);
        assert(s =~= s.subrange(0, end));
    } else {
        assert(is_ws(s.last()));
        let t = s.drop_last();
        assert(forall|k: int| end <= k < t.len() ==> is_ws(#[trigger] t[k]));
        assert(end > 0 ==> !is_ws(t[end - 1]));
        lemma_drop_trailing_is_prefix(t, end);
        assert(t.subrange(0, end) =~= s.subrange(0, end));
    }
}

/// Remove surrounding whitespace, as `str::trim` would.
pub fn trim_ws(s: &str) -> (r: &str)
    ensures
        r@ == trimmed_view(s@),
{
    let n = s.unicode_len();
    let mut start: usize = 0;
    while start < n && is_ws_char(s.get_char(start))
        invariant
            n == s@.len(),
            start <= n,
            forall|k: int| 0 <= k < start ==> is_ws(s@[k]),
        decreases n - start,
    {
        start = start + 1;
    }
    let mut end: usize = n;
    while end > start && is_ws_char(s.get_char(end - 1))
        invariant
            n == s@.len(),
            start <= end <= n,
            forall|k: int| end <= k < n ==> is_ws(s@[k]),
        decreases end,
    {
        end = end - 1;
    }
    let r = s.substring_char(start, end);
    proof {
        lemma_drop_leading_is_suffix(s@, start as int);
        let t = s@.subrange(start as int, s@.len() as int);
        assert(forall|k: int|
            end - start <= k < t.len() ==> is_ws(#[trigger] t[k]) && t[k] == s@[k + start]);
        lemma_drop_trailing_is_prefix(t, end - start);
        assert(t.subrange(0, end - start) =~= s@.subrange(start as int, end as int));
    }
    r
}

/// The two pieces joined into one owned string.
pub fn concat2(a: &str, b: &str) -> (r: String)
    ensures
        r@ == a@ + b@,
{
    let mut r = String::new();
    r.append(a);
    r.append(b);
    proof {
        assert(r@ =~= a@ + b@);
    }
    r
}

/// The three pieces joined into one owned string.
pub fn concat3(a: &str, b: &str, c: &str) -> (r: String)
    ensures
        r@ == a@ + b@ + c@,
{
    let mut r = String::new();
    r.append(a);
    r.append(b);
    r.append(c);
    proof {
        assert(r@ =~= a@ + b@ + c@);
    }
    r
}

/// The given lines laid out as line-oriented text: each line followed by a
/// newline character.
pub open spec fn joined_lines(lines: Seq<Seq<char>>) -> Seq<char>
    decreases lines.len(),
{
    if lines.len() == 0 {
        Seq::empty()
    } else {
        lines[0] + seq!['\n'] + joined_lines(lines.drop_first())
    }
}

/// Render directive lines as the text that reaches the build pipeline: each
/// line terminated by a newline.
pub fn render(lines: &Vec<String>) -> (out: String)
    ensures
        out@ == joined_lines(lines.deep_view()),
{
    let ghost all = lines.deep_view();
    let mut out = String::new();
    proof {
        assert(out@ + joined_lines(all.skip(0)) =~= joined_lines(all)) by {
            assert(all.skip(0) =~= all);
        }
    }
    let mut i: usize = 0;
    while i < lines.len()
        invariant
            all == lines.deep_view(),
            i <= lines.len(),
            all.len() == lines.len(),
            out@ + joined_lines(all.skip(i as int)) == joined_lines(all),
        decreases lines.len() - i,
    {
        out.append(lines[i].as_str());
        out.append("\n");
        proof {
            reveal_strlit("\n");
            let rest = all.skip(i as int);
            assert(rest[0] == lines@[i as int]@);
            assert(rest.drop_first() =~= all.skip(i as int + 1));
            assert(joined_lines(rest) == rest[0] + seq!['\n'] + joined_lines(rest.drop_first()));
            assert("\n"@ =~= seq!['\n']);
            assert(out@ + joined_lines(all.skip(i as int + 1)) =~= joined_lines(all));
        }
        i = i + 1;
    }
    proof {
        assert(all.skip(all.len() as int) =~= Seq::empty());
        assert(out@ + joined_lines(all.skip(all.len() as int)) =~= out@);
    }
    out
}

/// Relies on `String::from_utf8_lossy`: the result is a function of the bytes
/// alone; valid UTF-8 decodes with no replacement.
#[verifier::external_body]
pub(crate) fn lossy_string(bytes: &Vec<u8>) -> (r: String)
    ensures
        r@ == lossy_of(bytes@),
        valid_utf8(bytes@) ==> r@ == decode_utf8(bytes@),
{
    String::from_utf8_lossy(bytes).into_owned()
}

/// What `String::from_utf8_lossy` makes of the bytes: the decoded text, with
/// each invalid sequence replaced.
pub uninterp spec fn lossy_of(bytes: Seq<u8>) -> Seq<char>;

/// Relies on `str::from_utf8`: it succeeds exactly on valid UTF-8 and decodes
/// it.
#[verifier::external_body]
pub(crate) fn utf8_string(bytes: &Vec<u8>) -> (r: Option<String>)
    ensures
        r is Some <==> valid_utf8(bytes@),
        r matches Some(s) ==> s@ == decode_utf8(bytes@),
{
    match std::str::from_utf8(bytes) {
        Ok(s) => Some(s.to_string()),
        Err(_) => None,
    }
}

} // verus!
