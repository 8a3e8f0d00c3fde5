//! The comma-joined list encoding used for the tag attribute.
//!
//! A tag list is persisted as a single string: the tags joined with `,` as
//! the separator. Decoding splits the stored string on every comma and keeps
//! empty substrings verbatim, so `"a,,b"` decodes to `["a", "", "b"]`. No
//! escaping is performed: a tag that itself contains a comma cannot survive
//! a round trip, a known limitation of the convention.

use vstd::prelude::*;
use vstd::string::StrSliceExecFns;
use vstd::string::StringExecFns;

verus! {

/// Index of the first comma in `s`, or `-1` when `s` holds no comma.
pub open spec fn find_comma(s: Seq<char>) -> int
    decreases s.len(),
{
    if s.len() == 0 {
        -1
    } else if s[0] == ',' {
        0
    } else {
        let r = find_comma(s.drop_first());
        if r < 0 {
            -1
        } else {
            r + 1
        }
    }
}

/// `find_comma` returns `-1` exactly on comma-free strings, and otherwise
/// the position of the first comma.
pub proof fn lemma_find_comma(s: Seq<char>)
    ensures
        find_comma(s) == -1 || 0 <= find_comma(s) < s.len(),
        (find_comma(s) == -1) <==> (forall|j: int| 0 <= j < s.len() ==> s[j] != ','),
        find_comma(s) >= 0 ==> s[find_comma(s)] == ',',
        forall|j: int| 0 <= j < find_comma(s) ==> s[j] != ',',
    decreases s.len(),
{
    if s.len() == 0 {
    } else if s[0] == ',' {
    } else {
        let t = s.drop_first();
        lemma_find_comma(t);
        if find_comma(t) == -1 {
            assert(forall|j: int| 0 <= j < s.len() ==> s[j] != ',') by {
                assert(forall|j: int| 1 <= j < s.len() ==> s[j] == t[j - 1]);
            }
        } else {
            let m = find_comma(t);
            assert(s[m + 1] == ',') by {
                assert(t[m] == s[m + 1]);
            }
            assert(forall|j: int| 0 <= j < m + 1 ==> s[j] != ',') by {
                assert(forall|j: int| 1 <= j < m + 1 ==> s[j] == t[j - 1] && t[j - 1] != ',');
            }
        }
    }
}

/// The tag list a stored string stands for: the string split on every comma.
///
/// A comma-free string (the empty string included) yields a single-element
/// list, matching the behaviour of splitting on a separator that keeps
/// empty pieces.
pub open spec fn split_commas(s: Seq<char>) -> Seq<Seq<char>>
    decreases s.len(),
    via split_commas_decreases
{
    let i = find_comma(s);
    if i < 0 {
        seq![s]
    } else {
        seq![s.subrange(0, i)] + split_commas(s.subrange(i + 1, s.len() as int))
    }
}

#[via_fn]
proof fn split_commas_decreases(s: Seq<char>) {
    lemma_find_comma(s);
}

/// The stored string a tag list stands for: the tags joined with commas.
pub open spec fn join_commas(parts: Seq<Seq<char>>) -> Seq<char>
    decreases parts.len(),
{
    if parts.len() == 0 {
        Seq::empty()
    } else if parts.len() == 1 {
        parts[0]
    } else {
        parts[0] + seq![','] + join_commas(parts.drop_first())
    }
}

/// Splits `input` on every comma, keeping empty pieces.
pub fn csv(input: &str) -> (r: Vec<String>)
    ensures
        r.deep_view() == split_commas(input@),
{
    let n = input.unicode_len();
    let mut parts: Vec<String> = Vec::new();
    let mut start: usize = 0;
    let mut i: usize = 0;
    proof {
        assert(input@.subrange(0, n as int) =~= input@);
    }
    while i < n
        invariant
            start <= i <= n,
            n == input@.len(),
            forall|j: int| start <= j < i ==> input@[j] != ',',
            split_commas(input@) == parts.deep_view() + split_commas(
                input@.subrange(start as int, n as int),
            ),
        decreases n - i,
    {
        let c = input.get_char(i);
        if c == ',' {
            let piece = input.substring_char(start, i).to_owned();
            proof {
                lemma_split_at_first_comma(input@, start as int, i as int);
                assert(piece@ =~= input@.subrange(start as int, n as int).subrange(
                    0,
                    i - start,
                ));
            }
            let ghost old_parts = parts.deep_view();
            parts.push(piece);
            proof {
                assert(parts.deep_view() =~= old_parts.push(piece@));
                assert(parts.deep_view() + split_commas(
                    input@.subrange(i + 1, n as int),
                ) =~= old_parts + (seq![piece@] + split_commas(input@.subrange(i + 1, n as int))));
            }
            start = i + 1;
        }
        i += 1;
    }
    let last = input.substring_char(start, n).to_owned();
    let ghost old_parts = parts.deep_view();
    parts.push(last);
    proof {
        let rest = input@.subrange(start as int, n as int);
        lemma_find_comma(rest);
        assert(forall|j: int| 0 <= j < rest.len() ==> rest[j] != ',');
        assert(split_commas(rest) == seq![rest]);
        assert(parts.deep_view() =~= old_parts.push(last@));
        assert(parts.deep_view() =~= old_parts + seq![rest]);
    }
    parts
}

/// On a string whose first comma sits at `i`, splitting takes the piece
/// before `i` and continues after it.
proof fn lemma_split_at_first_comma(s: Seq<char>, start: int, i: int)
    requires
        0 <= start <= i < s.len(),
        s[i] == ',',
        forall|j: int| start <= j < i ==> s[j] != ',',
    ensures
        split_commas(s.subrange(start, s.len() as int)) == seq![
            s.subrange(start, i),
        ] + split_commas(s.subrange(i + 1, s.len() as int)),
{
    let n = s.len() as int;
    let rest = s.subrange(start, n);
    lemma_find_comma(rest);
    let k = i - start;
    assert(rest[k] == ',');
    assert(forall|j: int| 0 <= j < k ==> rest[j] != ',');
    assert(find_comma(rest) == k);
    assert(rest.subrange(0, k) =~= s.subrange(start, i));
    assert(rest.subrange(k + 1, rest.len() as int) =~= s.subrange(i + 1, n));
}

/// Joining a list extended by one more tag appends a comma (unless the list
/// was empty) and then the tag.
proof fn lemma_join_push(parts: Seq<Seq<char>>, x: Seq<char>)
    ensures
        parts.len() == 0 ==> join_commas(parts.push(x)) == x,
        parts.len() > 0 ==> join_commas(parts.push(x)) == join_commas(parts) + seq![','] + x,
    decreases parts.len(),
{
    let q = parts.push(x);
    if parts.len() == 0 {
        assert(join_commas(q) == q[0]);
    } else if parts.len() == 1 {
        assert(q.drop_first() =~= seq![x]);
        assert(join_commas(q.drop_first()) == x);
    } else {
        assert(q.drop_first() =~= parts.drop_first().push(x));
        lemma_join_push(parts.drop_first(), x);
        assert(join_commas(q) == q[0] + seq![','] + join_commas(q.drop_first()));
        assert(join_commas(parts) + seq![','] + x =~= q[0] + seq![','] + (join_commas(
            parts.drop_first(),
        ) + seq![','] + x));
    }
}

/// Joins `tags` into the single stored string, with `,` as the separator.
///
/// An empty list joins to the empty string.
pub fn join_tags(tags: &Vec<String>) -> (r: String)
    ensures
        r@ == join_commas(tags.deep_view()),
{
    let mut r = String::new();
    let mut i: usize = 0;
    proof {
        assert(tags.deep_view().subrange(0, 0) =~= Seq::<Seq<char>>::empty());
    }
    while i < tags.len()
        invariant
            i <= tags.len(),
            r@ == join_commas(tags.deep_view().subrange(0, i as int)),
        decreases tags.len() - i,
    {
        proof {
            reveal_strlit(",");
            assert(","@ =~= seq![',']);
            lemma_join_push(tags.deep_view().subrange(0, i as int), tags.deep_view()[i as int]);
            assert(tags.deep_view().subrange(0, i + 1) =~= tags.deep_view().subrange(
                0,
                i as int,
            ).push(tags.deep_view()[i as int]));
        }
        if i > 0 {
            r.append(",");
        }
        r.append(tags[i].as_str());
        i += 1;
    }
    proof {
        assert(tags.deep_view().subrange(0, tags.len() as int) =~= tags.deep_view());
    }
    r
}

/// Splitting the joined encoding of a non-empty, comma-free tag list gives
/// the list back: the list encoding loses nothing on such lists.
///
/// An empty list is genuinely lossy (it joins to the empty string, which
/// splits to a list holding one empty tag), so it is left out here.
pub proof fn lemma_split_join(parts: Seq<Seq<char>>)
    requires
        parts.len() > 0,
        forall|p: int, j: int|
            0 <= p < parts.len() && 0 <= j < parts[p].len() ==> #[trigger] parts[p][j] != ',',
    ensures
        split_commas(join_commas(parts)) == parts,
    decreases parts.len(),
{
    let s = join_commas(parts);
    if parts.len() == 1 {
        lemma_find_comma(s);
        assert(forall|j: int| 0 <= j < s.len() ==> s[j] != ',') by {
            assert(s == parts[0]);
        }
        assert(split_commas(s) == seq![s]);
        assert(seq![s] =~= parts);
    } else {
        let head = parts[0];
        let tail_join = join_commas(parts.drop_first());
        assert(s == head + seq![','] + join_commas(parts.drop_first()));
        let k = head.len() as int;
        assert(s[k] == ',');
        assert(forall|j: int| 0 <= j < k ==> s[j] == head[j] && #[trigger] s[j] != ',');
        lemma_split_at_first_comma(s, 0, k);
        assert(s.subrange(0, s.len() as int) =~= s);
        assert(s.subrange(0, k) =~= head);
        assert(s.subrange(k + 1, s.len() as int) =~= tail_join);
        assert(forall|p: int, j: int|
            0 <= p < parts.drop_first().len() && 0 <= j < parts.drop_first()[p].len()
                ==> #[trigger] parts.drop_first()[p][j] != ',') by {
            assert(forall|p: int|
                0 <= p < parts.drop_first().len() ==> parts.drop_first()[p] == parts[p + 1]);
        }
        lemma_split_join(parts.drop_first());
        assert(split_commas(s) == seq![head] + parts.drop_first());
        assert(seq![head] + parts.drop_first() =~= parts);
    }
}

} // verus!
