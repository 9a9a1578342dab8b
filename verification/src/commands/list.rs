//! `mimik list`: the installed voices, one row each, ordered by directory
//! name.

use vstd::prelude::*;
use crate::text::{pad_right, spec_pad_right, views};
use crate::voice::VoiceManifest;

verus! {

broadcast use vstd::seq_lib::group_to_multiset_ensures;

/// Byte-wise lexicographic order, the order of file names on Unix.
pub open spec fn lex_le(a: Seq<u8>, b: Seq<u8>) -> bool
    decreases a.len(),
{
    if a.len() == 0 {
        true
    } else if b.len() == 0 {
        false
    } else if a[0] < b[0] {
        true
    } else if a[0] > b[0] {
        false
    } else {
        lex_le(a.drop_first(), b.drop_first())
    }
}

pub proof fn lemma_lex_total(a: Seq<u8>, b: Seq<u8>)
    ensures
        lex_le(a, b) || lex_le(b, a),
    decreases a.len(),
{
    if a.len() > 0 && b.len() > 0 && a[0] == b[0] {
        lemma_lex_total(a.drop_first(), b.drop_first());
    }
}

pub proof fn lemma_lex_reflexive(a: Seq<u8>)
    ensures
        lex_le(a, a),
    decreases a.len(),
{
    if a.len() > 0 {
        lemma_lex_reflexive(a.drop_first());
    }
}

pub proof fn lemma_lex_transitive(a: Seq<u8>, b: Seq<u8>, c: Seq<u8>)
    requires
        lex_le(a, b),
        lex_le(b, c),
    ensures
        lex_le(a, c),
    decreases a.len(),
{
    if a.len() > 0 && b.len() > 0 && c.len() > 0 && a[0] == b[0] && b[0] == c[0] {
        lemma_lex_transitive(a.drop_first(), b.drop_first(), c.drop_first());
    }
}

/// `lex_le` compares byte by byte: at the first position where two names
/// differ, the one with the smaller byte comes first.
pub proof fn lemma_lex_le_first_difference(a: Seq<u8>, b: Seq<u8>, k: int)
    requires
        0 <= k < a.len(),
        k < b.len(),
        a.take(k) == b.take(k),
        a[k] != b[k],
    ensures
        lex_le(a, b) == (a[k] < b[k]),
    decreases k,
{
    if k > 0 {
        assert(a[0] == a.take(k)[0] && b[0] == b.take(k)[0]);
        assert(a.drop_first().take(k - 1) =~= a.take(k).drop_first());
        assert(b.drop_first().take(k - 1) =~= b.take(k).drop_first());
        lemma_lex_le_first_difference(a.drop_first(), b.drop_first(), k - 1);
    }
}

/// A name comes before every longer name that starts with it, and never
/// after it.
pub proof fn lemma_lex_le_prefix(a: Seq<u8>, b: Seq<u8>)
    requires
        a.len() <= b.len(),
        b.take(a.len() as int) == a,
    ensures
        lex_le(a, b),
        a.len() < b.len() ==> !lex_le(b, a),
    decreases a.len(),
{
    if a.len() > 0 {
        assert(a[0] == b.take(a.len() as int)[0]);
        assert(b.drop_first().take(a.drop_first().len() as int) =~= a.drop_first());
        lemma_lex_le_prefix(a.drop_first(), b.drop_first());
    }
}

/// The names are in ascending byte-wise order.
pub open spec fn sorted_by_name(s: Seq<Vec<u8>>) -> bool {
    forall|i: int, j: int| 0 <= i < j < s.len() ==> lex_le(#[trigger] s[i]@, #[trigger] s[j]@)
}

/// Compares two names byte-wise.
pub fn name_le(a: &Vec<u8>, b: &Vec<u8>) -> (r: bool)
    ensures
        r == lex_le(a@, b@),
{
    let mut i: usize = 0;
    assert(a@.skip(0) =~= a@ && b@.skip(0) =~= b@);
    while i < a.len() && i < b.len() && a[i] == b[i]
        invariant
            i <= a.len(),
            i <= b.len(),
            lex_le(a@, b@) == lex_le(a@.skip(i as int), b@.skip(i as int)),
        decreases a.len() - i,
    {
        proof {
            let sa = a@.skip(i as int);
            let sb = b@.skip(i as int);
            assert(sa.drop_first() =~= a@.skip(i + 1));
            assert(sb.drop_first() =~= b@.skip(i + 1));
        }
        i = i + 1;
    }
    if i == a.len() {
        true
    } else if i == b.len() {
        false
    } else {
        a[i] < b[i]
    }
}

/// Orders the voice directory names as `list` shows them.
pub fn sort_voice_dirs(names: Vec<Vec<u8>>) -> (r: Vec<Vec<u8>>)
    ensures
        sorted_by_name(r@),
        r@.to_multiset() == names@.to_multiset(),
{
    let ghost all = names@;
    let mut input = names;
    let mut out: Vec<Vec<u8>> = Vec::new();
    while input.len() > 0
        invariant
            sorted_by_name(out@),
            out@.to_multiset().add(input@.to_multiset()) == all.to_multiset(),
        decreases input.len(),
    {
        let ghost before_in = input@;
        let x = input.pop().unwrap();
        proof {
            assert(before_in =~= input@.push(x));
        }
        let mut p: usize = 0;
        while p < out.len() && name_le(&out[p], &x)
            invariant
                p <= out.len(),
                forall|k: int| 0 <= k < p ==> lex_le(#[trigger] out@[k]@, x@),
            decreases out.len() - p,
        {
            p = p + 1;
        }
        let ghost before_out = out@;
        proof {
            if p < out.len() {
                lemma_lex_total(out@[p as int]@, x@);
            }
        }
        out.insert(p, x);
        proof {
            let s = out@;
            assert forall|i: int, j: int| 0 <= i < j < s.len() implies lex_le(
                #[trigger] s[i]@,
                #[trigger] s[j]@,
            ) by {
                if i < p && j < p {
                    assert(s[i] == before_out[i] && s[j] == before_out[j]);
                } else if i < p && j == p {
                } else if i < p {
                    assert(s[i] == before_out[i] && s[j] == before_out[j - 1]);
                } else if i == p {
                    assert(s[j] == before_out[j - 1]);
                    if j - 1 > p {
                        assert(lex_le(before_out[p as int]@, before_out[j - 1]@));
                    } else {
                        lemma_lex_reflexive(before_out[p as int]@);
                    }
                    lemma_lex_transitive(x@, before_out[p as int]@, s[j]@);
                } else {
                    assert(s[i] == before_out[i - 1] && s[j] == before_out[j - 1]);
                }
            }
        }
    }
    out
}

/// One row of the listing: id and engine left-aligned in columns of twelve
/// characters, then the version.
pub open spec fn spec_row(id: Seq<char>, engine: Seq<char>, version: Seq<char>) -> Seq<char> {
    spec_pad_right(id, 12) + " "@ + spec_pad_right(engine, 12) + " "@ + version
}

/// Formats one row of the listing (`{:<12} {:<12} {}`).
pub fn format_row(id: &str, engine: &str, version: &str) -> (r: String)
    ensures
        r@ == spec_row(id@, engine@, version@),
{
    let mut s = pad_right(id, 12);
    s.append(" ");
    let e = pad_right(engine, 12);
    s.append(e.as_str());
    s.append(" ");
    s.append(version);
    s
}

/// The rows of the voices whose manifests could be read, in order.
pub open spec fn spec_rows(manifests: Seq<Option<VoiceManifest>>) -> Seq<Seq<char>>
    decreases manifests.len(),
{
    if manifests.len() == 0 {
        seq![]
    } else {
        spec_rows(manifests.drop_last()) + match manifests.last() {
            Some(m) => seq![spec_row(m.id@, m.engine@, m.version@)],
            None => Seq::<Seq<char>>::empty(),
        }
    }
}

pub open spec fn spec_list(manifests: Seq<Option<VoiceManifest>>) -> Seq<Seq<char>> {
    seq!["Installed voices"@, Seq::<char>::empty(), spec_row("NAME"@, "ENGINE"@, "VERSION"@)]
        + spec_rows(manifests)
}

/// What `mimik list` prints, given the manifests of the voice directories in
/// listing order (`None` where a manifest could not be read: that voice is
/// left out).
pub fn run(manifests: &Vec<Option<VoiceManifest>>) -> (r: Vec<String>)
    ensures
        views(r@) == spec_list(manifests@),
{
    let mut lines: Vec<String> = Vec::new();
    lines.push(String::from_str("Installed voices"));
    lines.push(String::new());
    lines.push(format_row("NAME", "ENGINE", "VERSION"));
    let ghost head = views(lines@);
    assert(head =~= seq![
        "Installed voices"@,
        Seq::<char>::empty(),
        spec_row("NAME"@, "ENGINE"@, "VERSION"@),
    ]);
    assert(manifests@.take(0) =~= Seq::<Option<VoiceManifest>>::empty());
    let mut i: usize = 0;
    while i < manifests.len()
        invariant
            i <= manifests.len(),
            head == seq![
                "Installed voices"@,
                Seq::<char>::empty(),
                spec_row("NAME"@, "ENGINE"@, "VERSION"@),
            ],
            views(lines@) == head + spec_rows(manifests@.take(i as int)),
        decreases manifests.len() - i,
    {
        let ghost before = lines@;
        assert(manifests@.take(i + 1).drop_last() =~= manifests@.take(i as int));
        match &manifests[i] {
            Some(m) => {
                let row = format_row(m.id.as_str(), m.engine.as_str(), m.version.as_str());
                lines.push(row);
                assert(views(lines@) =~= views(before).push(row@));
            },
            None => {},
        }
        assert(views(lines@) =~= head + spec_rows(manifests@.take(i + 1)));
        i = i + 1;
    }
    assert(manifests@.take(manifests.len() as int) =~= manifests@);
    lines
}

} // verus!
