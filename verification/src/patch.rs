use vstd::prelude::*;

verus! {

/// Whether `pat` occurs in `s` at position `i`.
pub open spec fn is_match_at(s: Seq<char>, pat: Seq<char>, i: int) -> bool {
    0 <= i && i + pat.len() <= s.len() && s.subrange(i, i + pat.len() as int) == pat
}

/// First position at or after `from` where `pat` occurs in `s`; an empty
/// token is never found.
pub open spec fn spec_find(s: Seq<char>, pat: Seq<char>, from: int) -> Option<int>
    decreases s.len() - from,
{
    if pat.len() == 0 || from < 0 || from + pat.len() > s.len() {
        None
    } else if is_match_at(s, pat, from) {
        Some(from)
    } else {
        spec_find(s, pat, from + 1)
    }
}

/// Whether `pat` occurs anywhere in `s`.
pub open spec fn spec_contains(s: Seq<char>, pat: Seq<char>) -> bool {
    spec_find(s, pat, 0) is Some
}

/// A found position is at or after the start of the search and carries a
/// real match.
pub proof fn lemma_find_found(s: Seq<char>, pat: Seq<char>, from: int)
    requires
        spec_find(s, pat, from) is Some,
    ensures
        spec_find(s, pat, from) matches Some(k) && from <= k && is_match_at(s, pat, k),
    decreases s.len() - from,
{
    if !(pat.len() == 0 || from < 0 || from + pat.len() > s.len()) && !is_match_at(s, pat, from) {
        lemma_find_found(s, pat, from + 1);
    }
}

/// A match anywhere at or after `from` means the search finds something.
proof fn lemma_find_exists(s: Seq<char>, pat: Seq<char>, from: int, i: int)
    requires
        pat.len() > 0,
        0 <= from <= i,
        is_match_at(s, pat, i),
    ensures
        spec_find(s, pat, from) is Some,
    decreases i - from,
{
    if !is_match_at(s, pat, from) {
        lemma_find_exists(s, pat, from + 1, i);
    }
}

/// A text without the token still lacks it after its first character is
/// dropped.
proof fn lemma_contains_skip(s: Seq<char>, pat: Seq<char>)
    requires
        pat.len() > 0,
        s.len() > 0,
        !spec_contains(s, pat),
    ensures
        !spec_contains(s.skip(1), pat),
{
    if spec_contains(s.skip(1), pat) {
        lemma_find_found(s.skip(1), pat, 0);
        let j = spec_find(s.skip(1), pat, 0)->Some_0;
        assert(s.skip(1).subrange(j, j + pat.len() as int) =~= s.subrange(
            j + 1,
            j + 1 + pat.len(),
        ));
        assert(is_match_at(s, pat, j + 1));
        lemma_find_exists(s, pat, 0, j + 1);
    }
}

/// Law: a literal token that occurs nowhere in the text leaves the text
/// unchanged; an unmatched replacement is silently a no-op, not an error.
pub proof fn lemma_replace_unmatched(s: Seq<char>, pat: Seq<char>, to: Seq<char>)
    requires
        !spec_contains(s, pat),
    ensures
        spec_replace(s, pat, to) == s,
    decreases s.len(),
{
    if pat.len() == 0 || s.len() < pat.len() {
    } else {
        if s.take(pat.len() as int) == pat {
            assert(s.subrange(0, pat.len() as int) =~= s.take(pat.len() as int));
            assert(is_match_at(s, pat, 0));
            lemma_find_exists(s, pat, 0, 0);
        }
        lemma_contains_skip(s, pat);
        lemma_replace_unmatched(s.skip(1), pat, to);
        assert(seq![s[0]] + s.skip(1) =~= s);
    }
}

/// `s` with every occurrence of `pat` replaced by `to`, scanning left to
/// right without overlap; an empty token replaces nothing.
pub open spec fn spec_replace(s: Seq<char>, pat: Seq<char>, to: Seq<char>) -> Seq<char>
    decreases s.len(),
{
    if pat.len() == 0 || s.len() < pat.len() {
        s
    } else if s.take(pat.len() as int) == pat {
        to + spec_replace(s.skip(pat.len() as int), pat, to)
    } else {
        seq![s[0]] + spec_replace(s.skip(1), pat, to)
    }
}

/// Whether `pat` occurs in `s` at position `i`, decided by scanning.
fn matches_at(s: &Vec<char>, pat: &Vec<char>, i: usize) -> (r: bool)
    requires
        i + pat@.len() <= s@.len(),
    ensures
        r == is_match_at(s@, pat@, i as int),
{
    let n = s.len();
    let plen = pat.len();
    let mut j: usize = 0;
    while j < plen
        invariant
            n == s@.len(),
            plen == pat@.len(),
            i + plen <= n,
            j <= plen,
            forall|t: int| 0 <= t < j ==> s@[i + t] == pat@[t],
        decreases plen - j,
    {
        if s[i + j] != pat[j] {
            proof {
                assert(s@.subrange(i as int, i + plen) != pat@) by {
                    assert(s@.subrange(i as int, i + plen)[j as int] == s@[i + j]);
                }
            }
            return false;
        }
        j += 1;
    }
    proof {
        assert(s@.subrange(i as int, i + plen) =~= pat@);
    }
    true
}

/// Appends a copy of `src` to `dst`.
pub(crate) fn append_copy(dst: &mut Vec<char>, src: &Vec<char>)
    ensures
        final(dst)@ == old(dst)@ + src@,
{
    let n = src.len();
    let mut i: usize = 0;
    while i < n
        invariant
            n == src@.len(),
            i <= n,
            dst@ == old(dst)@ + src@.take(i as int),
        decreases n - i,
    {
        dst.push(src[i]);
        i += 1;
        proof {
            assert(old(dst)@ + src@.take(i - 1) + seq![src@[i - 1]] =~= old(dst)@ + src@.take(
                i as int,
            ));
        }
    }
    proof {
        assert(old(dst)@ + src@.take(n as int) =~= old(dst)@ + src@);
    }
}

/// A copy of `s[lo..hi]`.
fn copy_range(s: &Vec<char>, lo: usize, hi: usize) -> (r: Vec<char>)
    requires
        lo <= hi <= s@.len(),
    ensures
        r@ == s@.subrange(lo as int, hi as int),
{
    let mut r: Vec<char> = Vec::new();
    let mut i: usize = lo;
    while i < hi
        invariant
            lo <= i <= hi <= s@.len(),
            r@ == s@.subrange(lo as int, i as int),
        decreases hi - i,
    {
        r.push(s[i]);
        i += 1;
        proof {
            assert(s@.subrange(lo as int, i - 1).push(s@[i - 1]) =~= s@.subrange(
                lo as int,
                i as int,
            ));
        }
    }
    r
}

/// Replaces every occurrence of the literal token `pat` in `s` by `to`,
/// scanning left to right without overlap.
pub fn replace_all(s: &Vec<char>, pat: &Vec<char>, to: &Vec<char>) -> (r: Vec<char>)
    ensures
        r@ == spec_replace(s@, pat@, to@),
{
    let n = s.len();
    let plen = pat.len();
    let mut r: Vec<char> = Vec::new();
    if plen == 0 {
        let out = copy_range(s, 0, n);
        proof {
            assert(s@.subrange(0, n as int) =~= s@);
        }
        return out;
    }
    let mut i: usize = 0;
    proof {
        assert(s@.skip(0) =~= s@);
        assert(r@ + spec_replace(s@, pat@, to@) =~= spec_replace(s@, pat@, to@));
    }
    while i < n
        invariant
            n == s@.len(),
            plen == pat@.len(),
            plen >= 1,
            i <= n,
            spec_replace(s@, pat@, to@) == r@ + spec_replace(s@.skip(i as int), pat@, to@),
        decreases n - i,
    {
        let ghost tail = s@.skip(i as int);
        let matched = plen <= n - i && matches_at(s, pat, i);
        if matched {
            proof {
                assert(tail.take(plen as int) =~= s@.subrange(i as int, i + plen));
                assert(tail.skip(plen as int) =~= s@.skip(i + plen));
                assert(spec_replace(tail, pat@, to@) == to@ + spec_replace(
                    s@.skip(i + plen),
                    pat@,
                    to@,
                ));
            }
            append_copy(&mut r, to);
            i += plen;
            proof {
                assert(spec_replace(s@, pat@, to@) == r@ + spec_replace(
                    s@.skip(i as int),
                    pat@,
                    to@,
                ));
            }
        } else {
            proof {
                if plen <= n - i {
                    assert(tail.take(plen as int) =~= s@.subrange(i as int, i + plen));
                    assert(tail.take(plen as int) != pat@);
                    assert(spec_replace(tail, pat@, to@) == seq![tail[0]] + spec_replace(
                        tail.skip(1),
                        pat@,
                        to@,
                    ));
                } else {
                    assert(tail.len() < plen);
                    assert(spec_replace(tail, pat@, to@) == tail);
                    assert(tail.skip(1).len() < plen);
                    assert(spec_replace(tail.skip(1), pat@, to@) == tail.skip(1));
                    assert(tail =~= seq![tail[0]] + tail.skip(1));
                }
                assert(tail[0] == s@[i as int]);
                assert(tail.skip(1) =~= s@.skip(i + 1));
            }
            let c = s[i];
            r.push(c);
            i += 1;
            proof {
                assert(spec_replace(s@, pat@, to@) == r@ + spec_replace(
                    s@.skip(i as int),
                    pat@,
                    to@,
                ));
            }
        }
    }
    proof {
        assert(s@.skip(n as int).len() == 0);
        assert(spec_replace(s@.skip(n as int), pat@, to@) == s@.skip(n as int));
        assert(r@ + s@.skip(n as int) =~= r@);
    }
    r
}

/// The whitespace characters tolerated between a block's keyword and its
/// opening brace.
pub open spec fn spec_is_ws(c: char) -> bool {
    c == ' ' || c == '\t' || c == '\n' || c == '\r'
}

/// Position of the first non-whitespace character at or after `i`.
pub open spec fn spec_skip_ws(s: Seq<char>, i: int) -> int
    decreases s.len() - i,
{
    if 0 <= i < s.len() && spec_is_ws(s[i]) {
        spec_skip_ws(s, i + 1)
    } else {
        i
    }
}

/// Index of the brace that closes a block: scanning from `i` with `depth`
/// braces currently open; `None` when the block never closes.
pub open spec fn spec_close(s: Seq<char>, i: int, depth: int) -> Option<int>
    decreases s.len() - i,
{
    if i < 0 || i >= s.len() || depth <= 0 {
        None
    } else if s[i] == '}' {
        if depth == 1 {
            Some(i)
        } else {
            spec_close(s, i + 1, depth - 1)
        }
    } else if s[i] == '{' {
        spec_close(s, i + 1, depth + 1)
    } else {
        spec_close(s, i + 1, depth)
    }
}

/// The half-open span of the first block at or after `from` that is
/// introduced by `keyword`, brace-balanced, and contains `marker`; the span
/// runs from the keyword through the closing brace.
pub open spec fn spec_block_span(
    s: Seq<char>,
    keyword: Seq<char>,
    marker: Seq<char>,
    from: int,
) -> Option<(int, int)>
    decreases s.len() - from,
        via spec_block_span_dec
{
    match spec_find(s, keyword, from) {
        None => None,
        Some(k) => {
            let j = spec_skip_ws(s, k + keyword.len());
            if j < s.len() && s[j] == '{' {
                match spec_close(s, j + 1, 1) {
                    Some(e) => if spec_contains(s.subrange(k, e + 1), marker) {
                        Some((k, e + 1))
                    } else {
                        spec_block_span(s, keyword, marker, k + 1)
                    },
                    None => spec_block_span(s, keyword, marker, k + 1),
                }
            } else {
                spec_block_span(s, keyword, marker, k + 1)
            }
        },
    }
}

#[via_fn]
proof fn spec_block_span_dec(s: Seq<char>, keyword: Seq<char>, marker: Seq<char>, from: int) {
    if spec_find(s, keyword, from) is Some {
        lemma_find_found(s, keyword, from);
    }
}

/// `s` with its first keyword-introduced, brace-balanced block containing
/// `marker` replaced wholesale by `repl`; `s` unchanged when no such block
/// exists.
pub open spec fn spec_replace_block(
    s: Seq<char>,
    keyword: Seq<char>,
    marker: Seq<char>,
    repl: Seq<char>,
) -> Seq<char> {
    match spec_block_span(s, keyword, marker, 0) {
        None => s,
        Some((b, e)) => s.subrange(0, b) + repl + s.skip(e),
    }
}

/// First position at or after `from` where `pat` occurs, by scanning.
fn find_from(s: &Vec<char>, pat: &Vec<char>, from: usize) -> (r: Option<usize>)
    ensures
        match r {
            Some(k) => spec_find(s@, pat@, from as int) == Some(k as int),
            None => spec_find(s@, pat@, from as int) is None,
        },
{
    let n = s.len();
    let plen = pat.len();
    if plen == 0 {
        return None;
    }
    let mut i: usize = from;
    while plen <= n && i <= n - plen
        invariant
            n == s@.len(),
            plen == pat@.len(),
            plen >= 1,
            spec_find(s@, pat@, from as int) == spec_find(s@, pat@, i as int),
        decreases n - i,
    {
        if matches_at(s, pat, i) {
            return Some(i);
        }
        i += 1;
    }
    None
}

/// Whether `pat` occurs anywhere in `s`, by scanning.
fn contains_pat(s: &Vec<char>, pat: &Vec<char>) -> (r: bool)
    ensures
        r == spec_contains(s@, pat@),
{
    match find_from(s, pat, 0) {
        Some(_) => true,
        None => false,
    }
}

/// Position of the first non-whitespace character at or after `from`.
fn skip_ws(s: &Vec<char>, from: usize) -> (r: usize)
    requires
        from <= s@.len(),
    ensures
        r == spec_skip_ws(s@, from as int),
        from <= r <= s@.len(),
{
    let n = s.len();
    let mut i: usize = from;
    while i < n
        invariant
            n == s@.len(),
            from <= i <= n,
            spec_skip_ws(s@, from as int) == spec_skip_ws(s@, i as int),
        decreases n - i,
    {
        let c = s[i];
        if !(c == ' ' || c == '\t' || c == '\n' || c == '\r') {
            return i;
        }
        i += 1;
    }
    i
}

/// Index of the brace closing the block whose body starts at `start`.
fn close_brace(s: &Vec<char>, start: usize) -> (r: Option<usize>)
    requires
        start <= s@.len(),
    ensures
        match r {
            Some(e) => spec_close(s@, start as int, 1) == Some(e as int) && start <= e < s@.len(),
            None => spec_close(s@, start as int, 1) is None,
        },
{
    let n = s.len();
    let mut i: usize = start;
    let mut depth: u128 = 1;
    while i < n
        invariant
            n == s@.len(),
            start <= i <= n,
            1 <= depth <= (i - start) + 1,
            spec_close(s@, start as int, 1) == spec_close(s@, i as int, depth as int),
        decreases n - i,
    {
        let c = s[i];
        if c == '}' {
            if depth == 1 {
                return Some(i);
            }
            depth = depth - 1;
        } else if c == '{' {
            depth = depth + 1;
        }
        i += 1;
    }
    None
}

/// Replaces the first keyword-introduced, brace-balanced block containing
/// `marker` wholesale by `replacement`; a source without such a block comes
/// back unchanged.
pub fn replace_block(
    s: &Vec<char>,
    keyword: &Vec<char>,
    marker: &Vec<char>,
    replacement: &Vec<char>,
) -> (r: Vec<char>)
    ensures
        r@ == spec_replace_block(s@, keyword@, marker@, replacement@),
{
    let n = s.len();
    let mut from: usize = 0;
    loop
        invariant
            n == s@.len(),
            from <= n,
            spec_block_span(s@, keyword@, marker@, 0) == spec_block_span(
                s@,
                keyword@,
                marker@,
                from as int,
            ),
        decreases n - from,
    {
        match find_from(s, keyword, from) {
            None => {
                let out = copy_range(s, 0, n);
                proof {
                    assert(out@ =~= s@);
                }
                return out;
            },
            Some(k) => {
                proof {
                    lemma_find_found(s@, keyword@, from as int);
                }
                let j = skip_ws(s, k + keyword.len());
                if j < n && s[j] == '{' {
                    match close_brace(s, j + 1) {
                        Some(e) => {
                            let block = copy_range(s, k, e + 1);
                            if contains_pat(&block, marker) {
                                let mut out = copy_range(s, 0, k);
                                append_copy(&mut out, replacement);
                                let tail = copy_range(s, e + 1, n);
                                append_copy(&mut out, &tail);
                                proof {
                                    assert(s@.subrange(e + 1, n as int) =~= s@.skip(e + 1));
                                }
                                return out;
                            }
                        },
                        None => {},
                    }
                }
                from = k + 1;
            },
        }
    }
}

/// One replacement of an ordered patch list: a literal token substitution or
/// a structured block substitution.
pub enum Patch {
    Literal { from: Vec<char>, to: Vec<char> },
    Block { keyword: Vec<char>, marker: Vec<char>, replacement: Vec<char> },
}

/// The content after one replacement.
pub open spec fn spec_apply_patch(content: Seq<char>, p: Patch) -> Seq<char> {
    match p {
        Patch::Literal { from, to } => spec_replace(content, from@, to@),
        Patch::Block { keyword, marker, replacement } => spec_replace_block(
            content,
            keyword@,
            marker@,
            replacement@,
        ),
    }
}

/// The content after an ordered list of replacements, applied first to last.
pub open spec fn spec_apply_patches(content: Seq<char>, ps: Seq<Patch>) -> Seq<char>
    decreases ps.len(),
{
    if ps.len() == 0 {
        content
    } else {
        spec_apply_patches(spec_apply_patch(content, ps[0]), ps.skip(1))
    }
}

/// Applies one replacement to a file's text.
pub fn apply_patch(content: &Vec<char>, p: &Patch) -> (r: Vec<char>)
    ensures
        r@ == spec_apply_patch(content@, *p),
{
    match p {
        Patch::Literal { from, to } => replace_all(content, from, to),
        Patch::Block { keyword, marker, replacement } => replace_block(
            content,
            keyword,
            marker,
            replacement,
        ),
    }
}

/// Applies an ordered replacement list to the pristine text of one template
/// file, yielding the text to write into the materialized tree.
pub fn apply_patches(pristine: &Vec<char>, replacements: &Vec<Patch>) -> (r: Vec<char>)
    ensures
        r@ == spec_apply_patches(pristine@, replacements@),
{
    let n = replacements.len();
    let mut cur = copy_range(pristine, 0, pristine.len());
    proof {
        assert(cur@ =~= pristine@);
        assert(replacements@.skip(0) =~= replacements@);
    }
    let mut i: usize = 0;
    while i < n
        invariant
            n == replacements@.len(),
            i <= n,
            spec_apply_patches(pristine@, replacements@) == spec_apply_patches(
                cur@,
                replacements@.skip(i as int),
            ),
        decreases n - i,
    {
        cur = apply_patch(&cur, &replacements[i]);
        i += 1;
        proof {
            assert(replacements@.skip(i - 1)[0] == replacements@[i - 1]);
            assert(replacements@.skip(i - 1).skip(1) =~= replacements@.skip(i as int));
        }
    }
    proof {
        assert(replacements@.skip(n as int).len() == 0);
    }
    cur
}

/// The materialized tree, modelled as a map from relative file path to text,
/// after the engine patches one file: the text written is derived from the
/// pristine template source alone, never from the tree's prior content.
pub open spec fn spec_patch_tree(
    tree: Map<Seq<char>, Seq<char>>,
    template: Map<Seq<char>, Seq<char>>,
    file: Seq<char>,
    ps: Seq<Patch>,
) -> Map<Seq<char>, Seq<char>> {
    tree.insert(file, spec_apply_patches(template[file], ps))
}

/// Law: because a patch pass reads the pristine template and never its own
/// prior output, running the engine twice over the same file with the same
/// replacement list writes byte-identical content and leaves the tree exactly
/// as a single pass does.
pub proof fn lemma_patch_engine_idempotent(
    tree: Map<Seq<char>, Seq<char>>,
    template: Map<Seq<char>, Seq<char>>,
    file: Seq<char>,
    ps: Seq<Patch>,
)
    ensures
        spec_patch_tree(spec_patch_tree(tree, template, file, ps), template, file, ps)
            == spec_patch_tree(tree, template, file, ps),
{
    assert(spec_patch_tree(spec_patch_tree(tree, template, file, ps), template, file, ps)
        =~= spec_patch_tree(tree, template, file, ps));
}

} // verus!
