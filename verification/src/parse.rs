use vstd::prelude::*;
use vstd::string::{StrSliceExecFns, StringExecFns};
use crate::table::{lookup_model, RowModel, UnitTable};
use crate::text::{alphabetic, str_eq, whitespace};

verus! {

/// A character at which the unit part of an input line begins: the first
/// alphabetic or whitespace character ends the numeric part.
pub open spec fn unit_start(c: char) -> bool {
    alphabetic(c) || whitespace(c)
}

/// The index of the first character starting the unit part, or the length
/// of the line when there is none.
pub open spec fn split_point(s: Seq<char>) -> int
    decreases s.len(),
{
    if s.len() == 0 {
        0
    } else if unit_start(s[0]) {
        0
    } else {
        1 + split_point(s.drop_first())
    }
}

proof fn lemma_split_point_at(s: Seq<char>, i: int)
    requires
        0 <= i <= s.len(),
        forall|j: int| 0 <= j < i ==> !unit_start(s[j]),
        i < s.len() ==> unit_start(s[i]),
    ensures
        split_point(s) == i,
    decreases i,
{
    if i == 0 {
    } else {
        assert(!unit_start(s[0]));
        assert forall|j: int| 0 <= j < i - 1 implies !unit_start(s.drop_first()[j]) by {
            assert(s.drop_first()[j] == s[j + 1]);
        }
        assert(i - 1 < s.drop_first().len() ==> s.drop_first()[i - 1] == s[i]);
        lemma_split_point_at(s.drop_first(), i - 1);
    }
}

/// The split point is the first alphabetic-or-whitespace position: every
/// character of the numeric part before it is neither, and the character
/// at it, when the unit part is not empty, is one of the two.
pub proof fn lemma_split_point_properties(s: Seq<char>)
    ensures
        ({
            let i = split_point(s);
            &&& 0 <= i <= s.len()
            &&& (forall|j: int| 0 <= j < i ==> !unit_start(s[j]))
            &&& (i < s.len() ==> unit_start(s[i]))
        }),
    decreases s.len(),
{
    if s.len() != 0 && !unit_start(s[0]) {
        lemma_split_point_properties(s.drop_first());
        let i = split_point(s);
        assert forall|j: int| 0 <= j < i implies !unit_start(s[j]) by {
            if j > 0 {
                assert(s.drop_first()[j - 1] == s[j]);
            }
        }
        assert(i < s.len() ==> s.drop_first()[i - 1] == s[i]);
    }
}

/// How many leading characters of a string are whitespace.
pub open spec fn ws_prefix_len(s: Seq<char>) -> int
    decreases s.len(),
{
    if s.len() == 0 {
        0
    } else if whitespace(s[0]) {
        1 + ws_prefix_len(s.drop_first())
    } else {
        0
    }
}

/// How many trailing characters of a string are whitespace.
pub open spec fn ws_suffix_len(s: Seq<char>) -> int
    decreases s.len(),
{
    if s.len() == 0 {
        0
    } else if whitespace(s.last()) {
        1 + ws_suffix_len(s.drop_last())
    } else {
        0
    }
}

proof fn lemma_ws_prefix_at(s: Seq<char>, i: int)
    requires
        0 <= i <= s.len(),
        forall|j: int| 0 <= j < i ==> whitespace(s[j]),
        i < s.len() ==> !whitespace(s[i]),
    ensures
        ws_prefix_len(s) == i,
    decreases i,
{
    if i == 0 {
    } else {
        assert(whitespace(s[0]));
        assert forall|j: int| 0 <= j < i - 1 implies whitespace(s.drop_first()[j]) by {
            assert(s.drop_first()[j] == s[j + 1]);
        }
        assert(i - 1 < s.drop_first().len() ==> s.drop_first()[i - 1] == s[i]);
        lemma_ws_prefix_at(s.drop_first(), i - 1);
    }
}

proof fn lemma_ws_suffix_at(s: Seq<char>, b: int)
    requires
        0 <= b <= s.len(),
        forall|j: int| b <= j < s.len() ==> whitespace(s[j]),
        b > 0 ==> !whitespace(s[b - 1]),
    ensures
        ws_suffix_len(s) == s.len() - b,
    decreases s.len(),
{
    if b == s.len() {
    } else {
        assert(whitespace(s.last()));
        assert forall|j: int| b <= j < s.drop_last().len() implies whitespace(s.drop_last()[j]) by {
            assert(s.drop_last()[j] == s[j]);
        }
        assert(b > 0 ==> s.drop_last()[b - 1] == s[b - 1]);
        lemma_ws_suffix_at(s.drop_last(), b);
    }
}

proof fn lemma_ws_prefix_properties(s: Seq<char>)
    ensures
        ({
            let a = ws_prefix_len(s);
            &&& 0 <= a <= s.len()
            &&& (forall|j: int| 0 <= j < a ==> whitespace(s[j]))
            &&& (a < s.len() ==> !whitespace(s[a]))
        }),
    decreases s.len(),
{
    if s.len() != 0 && whitespace(s[0]) {
        lemma_ws_prefix_properties(s.drop_first());
        let a = ws_prefix_len(s);
        assert forall|j: int| 0 <= j < a implies whitespace(s[j]) by {
            if j > 0 {
                assert(s.drop_first()[j - 1] == s[j]);
            }
        }
        assert(a < s.len() ==> s.drop_first()[a - 1] == s[a]);
    }
}

proof fn lemma_ws_suffix_properties(s: Seq<char>)
    ensures
        ({
            let c = ws_suffix_len(s);
            &&& 0 <= c <= s.len()
            &&& (forall|j: int| s.len() - c <= j < s.len() ==> whitespace(s[j]))
            &&& (c < s.len() ==> !whitespace(s[s.len() - c - 1]))
        }),
    decreases s.len(),
{
    if s.len() != 0 && whitespace(s.last()) {
        lemma_ws_suffix_properties(s.drop_last());
        let c = ws_suffix_len(s);
        assert forall|j: int| s.len() - c <= j < s.len() implies whitespace(s[j]) by {
            if j < s.len() - 1 {
                assert(s.drop_last()[j] == s[j]);
            }
        }
        assert(c < s.len() ==> s.drop_last()[s.len() - c - 1] == s[s.len() - c - 1]);
    }
}

/// A string with its leading and trailing whitespace removed.
pub open spec fn trimmed(s: Seq<char>) -> Seq<char> {
    let a = ws_prefix_len(s);
    let b = s.len() - ws_suffix_len(s);
    if a <= b {
        s.subrange(a, b)
    } else {
        Seq::empty()
    }
}

/// Trimming removes all surrounding whitespace: the trimmed string is
/// empty or begins and ends with a non-whitespace character, and trimming
/// it again changes nothing.
pub proof fn lemma_trimmed_idempotent(s: Seq<char>)
    ensures
        ({
            let t = trimmed(s);
            &&& (t.len() > 0 ==> !whitespace(t[0]) && !whitespace(t[t.len() - 1]))
            &&& trimmed(t) == t
        }),
{
    lemma_ws_prefix_properties(s);
    lemma_ws_suffix_properties(s);
    let t = trimmed(s);
    if t.len() > 0 {
        let a = ws_prefix_len(s);
        let b = s.len() - ws_suffix_len(s);
        assert(t[0] == s[a]);
        assert(t[t.len() - 1] == s[b - 1]);
        assert(trimmed(t) =~= t);
    } else {
        assert(trimmed(t) =~= t);
    }
}

/// The two irregular plural forms that are normalized before resolution.
pub open spec fn normalized(u: Seq<char>) -> Seq<char> {
    if u == "feet"@ {
        "foot"@
    } else if u == "cubic feet"@ {
        "cubic foot"@
    } else {
        u
    }
}

/// Progressive suffix trimming: the longest prefix of the unit string that
/// resolves in the table by exact match, or the empty string when none does.
pub open spec fn resolved(rows: Seq<RowModel>, u: Seq<char>) -> Seq<char>
    decreases u.len(),
{
    if lookup_model(rows, u) is Some || u.len() == 0 {
        u
    } else {
        resolved(rows, u.drop_last())
    }
}

/// Progressive suffix trimming picks exactly the longest prefix of the
/// unit string that resolves in the table, and the empty string when no
/// prefix at all does: the result is a prefix of the input, it resolves
/// unless it is empty, and every longer prefix fails to resolve.
pub proof fn lemma_resolved_longest_prefix(rows: Seq<RowModel>, u: Seq<char>)
    ensures
        ({
            let r = resolved(rows, u);
            &&& r.len() <= u.len()
            &&& r == u.take(r.len() as int)
            &&& (lookup_model(rows, r) is Some || r.len() == 0)
            &&& forall|k: int|
                r.len() < k <= u.len() ==> lookup_model(rows, #[trigger] u.take(k)) is None
        }),
    decreases u.len(),
{
    if lookup_model(rows, u) is Some || u.len() == 0 {
        assert(u.take(u.len() as int) =~= u);
    } else {
        lemma_resolved_longest_prefix(rows, u.drop_last());
        let r = resolved(rows, u.drop_last());
        assert(u.drop_last().take(r.len() as int) =~= u.take(r.len() as int));
        assert(r == u.take(r.len() as int));
        assert forall|k: int| r.len() < k <= u.len() implies lookup_model(
            rows,
            #[trigger] u.take(k),
        ) is None by {
            if k == u.len() {
                assert(u.take(k) =~= u);
            } else {
                assert(u.take(k) =~= u.drop_last().take(k));
            }
        }
    }
}

/// What parsing a line yields: the numeric text before the first alphabetic
/// or whitespace character, and the unit key after whitespace trimming,
/// plural normalization and progressive suffix trimming.
pub open spec fn parsed_model(rows: Seq<RowModel>, s: Seq<char>) -> (Seq<char>, Seq<char>) {
    let i = split_point(s);
    (s.take(i), resolved(rows, normalized(trimmed(s.skip(i)))))
}

/// The unit key that parsing returns resolves in the table by exact match
/// unless it is the empty string, so a failed downstream lookup happens
/// only for the empty key.
pub proof fn lemma_parsed_key_resolves(rows: Seq<RowModel>, s: Seq<char>)
    ensures
        ({
            let key = parsed_model(rows, s).1;
            lookup_model(rows, key) is Some || key.len() == 0
        }),
{
    lemma_resolved_longest_prefix(rows, normalized(trimmed(s.skip(split_point(s)))));
}

/// Finds the index at which the unit part of the line begins.
fn find_split(input: &str) -> (i: usize)
    ensures
        i == split_point(input@),
        i <= input@.len(),
{
    let len = input.unicode_len();
    let mut i: usize = 0;
    loop
        invariant
            i <= len,
            len == input@.len(),
            forall|j: int| 0 <= j < i ==> !unit_start(input@[j]),
        decreases len - i,
    {
        if i == len {
            proof {
                lemma_split_point_at(input@, i as int);
            }
            return i;
        }
        let c = input.get_char(i);
        if c.is_alphabetic() || c.is_whitespace() {
            proof {
                lemma_split_point_at(input@, i as int);
            }
            return i;
        }
        i = i + 1;
    }
}

/// Removes leading and trailing whitespace.
fn trim_ws<'a>(u: &'a str) -> (t: &'a str)
    ensures
        t@ == trimmed(u@),
{
    let len = u.unicode_len();
    let mut a: usize = 0;
    while a < len && u.get_char(a).is_whitespace()
        invariant
            a <= len,
            len == u@.len(),
            forall|j: int| 0 <= j < a ==> whitespace(u@[j]),
        decreases len - a,
    {
        a = a + 1;
    }
    proof {
        lemma_ws_prefix_at(u@, a as int);
    }
    if a == len {
        let t = u.substring_char(a, a);
        proof {
            lemma_ws_suffix_at(u@, 0);
            assert(t@ =~= trimmed(u@));
        }
        t
    } else {
        let mut b: usize = len;
        while b > a && u.get_char(b - 1).is_whitespace()
            invariant
                a < b <= len,
                len == u@.len(),
                !whitespace(u@[a as int]),
                forall|j: int| b <= j < len ==> whitespace(u@[j]),
            decreases b,
        {
            b = b - 1;
        }
        proof {
            lemma_ws_suffix_at(u@, b as int);
        }
        let t = u.substring_char(a, b);
        proof {
            assert(t@ =~= trimmed(u@));
        }
        t
    }
}

/// Resolves a normalized unit string against the table by repeatedly
/// dropping the last character until a key matches or nothing is left.
fn resolve_key(u: &str, table: &UnitTable) -> (r: String)
    ensures
        r@ == resolved(table@, u@),
{
    let len = u.unicode_len();
    proof {
        assert(u@.subrange(0, len as int) =~= u@);
    }
    let mut k: usize = len;
    loop
        invariant
            k <= len,
            len == u@.len(),
            resolved(table@, u@) == resolved(table@, u@.subrange(0, k as int)),
        decreases k,
    {
        let cand = u.substring_char(0, k);
        if table.contains(cand) || k == 0 {
            return String::from_str(cand);
        }
        proof {
            assert(u@.subrange(0, k as int).drop_last() =~= u@.subrange(0, k as int - 1));
        }
        k = k - 1;
    }
}

/// Splits an input line into its numeric text and its resolved unit key.
/// Whether the numeric text is a well-formed number is for the caller to
/// decide when it converts that text to a machine number.
pub fn parse_input(input: &str, table: &UnitTable) -> (r: (String, String))
    ensures
        r.0@ == parsed_model(table@, input@).0,
        r.1@ == parsed_model(table@, input@).1,
{
    let len = input.unicode_len();
    let i = find_split(input);
    let numeric = input.substring_char(0, i);
    let unit_raw = input.substring_char(i, len);
    proof {
        assert(numeric@ =~= input@.take(split_point(input@)));
        assert(unit_raw@ =~= input@.skip(split_point(input@)));
    }
    let unit_trim = trim_ws(unit_raw);
    let unit_norm: &str = if str_eq(unit_trim, "feet") {
        "foot"
    } else if str_eq(unit_trim, "cubic feet") {
        "cubic foot"
    } else {
        unit_trim
    };
    proof {
        assert(unit_norm@ == normalized(trimmed(input@.skip(split_point(input@)))));
    }
    let key = resolve_key(unit_norm, table);
    (String::from_str(numeric), key)
}

} // verus!
