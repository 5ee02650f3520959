//! Classification of request paths as protected or public.
//!
//! A pattern is path text in which each `*` stands for any run of
//! characters; the rest is matched literally. Both the pattern pieces and
//! the candidate path are compared in their percent-encoded form, so an
//! encoded reserved character in a path can neither satisfy nor defeat a
//! wildcard by accident.

use vstd::prelude::*;
use crate::encoding::{encoded_byte, percent_encode, percent_encoded};
use vstd::string::StringSliceAdditionalSpecFns;

verus! {

/// The byte that marks a wildcard in a pattern.
pub const WILDCARD: u8 = 0x2A;

/// The text of a pattern cut at each wildcard byte: one piece more than
/// there are wildcards.
pub open spec fn split_at_wildcards(b: Seq<u8>) -> Seq<Seq<u8>>
    decreases b.len(),
{
    if b.len() == 0 {
        seq![Seq::empty()]
    } else {
        let front = split_at_wildcards(b.drop_last());
        if b.last() == WILDCARD {
            front.push(Seq::empty())
        } else {
            front.update(front.len() - 1, front.last().push(b.last()))
        }
    }
}

/// Whether `text` is the pieces in order with any run of bytes between two
/// neighbouring pieces; with one piece, whether `text` is that piece.
pub open spec fn glob_matches(pieces: Seq<Seq<u8>>, text: Seq<u8>) -> bool
    decreases pieces.len(), 0int,
{
    if pieces.len() <= 1 {
        pieces.len() == 1 && text == pieces[0]
    } else {
        pieces[0].is_prefix_of(text) && wildcard_then(
            pieces.drop_first(),
            text.subrange(pieces[0].len() as int, text.len() as int),
        )
    }
}

/// Whether a wildcard followed by `rest` matches `text`: `rest` matches
/// what is left after skipping none, one or more leading bytes.
pub open spec fn wildcard_then(rest: Seq<Seq<u8>>, text: Seq<u8>) -> bool
    decreases rest.len(), text.len() + 1,
{
    glob_matches(rest, text) || (text.len() > 0 && wildcard_then(rest, text.drop_first()))
}

/// A wildcard followed by `rest` matches `text` exactly when `rest` matches
/// some suffix of it.
pub proof fn lemma_wildcard_then(rest: Seq<Seq<u8>>, text: Seq<u8>)
    ensures
        wildcard_then(rest, text) <==> exists|k: int|
            0 <= k <= text.len() && #[trigger] glob_matches(
                rest,
                text.subrange(k, text.len() as int),
            ),
    decreases text.len(),
{
    assert(text.subrange(0, text.len() as int) =~= text);
    assert(glob_matches(rest, text) == glob_matches(rest, text.subrange(0, text.len() as int)));
    if text.len() > 0 {
        let tail = text.drop_first();
        lemma_wildcard_then(rest, tail);
        if wildcard_then(rest, text) && !glob_matches(rest, text) {
            let k = choose|k: int|
                0 <= k <= tail.len() && #[trigger] glob_matches(
                    rest,
                    tail.subrange(k, tail.len() as int),
                );
            assert(tail.subrange(k, tail.len() as int) =~= text.subrange(k + 1, text.len() as int));
        }
        if exists|k: int|
            0 <= k <= text.len() && #[trigger] glob_matches(
                rest,
                text.subrange(k, text.len() as int),
            ) {
            let k = choose|k: int|
                0 <= k <= text.len() && #[trigger] glob_matches(
                    rest,
                    text.subrange(k, text.len() as int),
                );
            if k > 0 {
                assert(tail.subrange(k - 1, tail.len() as int) =~= text.subrange(k, text.len() as int));
            }
        }
    }
}

/// The compiled form of a pattern: its pieces between wildcards, each
/// percent-encoded.
pub open spec fn compiled(pattern: Seq<u8>) -> Seq<Seq<u8>> {
    split_at_wildcards(pattern).map_values(|p: Seq<u8>| percent_encoded(p))
}

/// Whether a path matches a pattern, both given as UTF-8 bytes.
pub open spec fn pattern_matches(pattern: Seq<u8>, path: Seq<u8>) -> bool {
    glob_matches(compiled(pattern), percent_encoded(path))
}

proof fn lemma_split_nonempty(b: Seq<u8>)
    ensures
        split_at_wildcards(b).len() >= 1,
    decreases b.len(),
{
    if b.len() > 0 {
        lemma_split_nonempty(b.drop_last());
    }
}

/// Whether `piece` occurs in `text` at byte `pos`.
fn occurs_at(piece: &Vec<u8>, text: &Vec<u8>, pos: usize) -> (r: bool)
    requires
        pos <= text@.len(),
    ensures
        r == piece@.is_prefix_of(text@.subrange(pos as int, text@.len() as int)),
{
    let n = text.len();
    if piece.len() > n - pos {
        return false;
    }
    let mut i: usize = 0;
    while i < piece.len()
        invariant
            n == text@.len(),
            i <= piece@.len(),
            pos + piece@.len() <= text@.len(),
            forall|j: int| 0 <= j < i ==> piece@[j] == text@[pos + j],
        decreases piece@.len() - i,
    {
        if piece[i] != text[pos + i] {
            return false;
        }
        i = i + 1;
    }
    true
}

/// Whether the pieces from index `i` on match the text from byte `pos` on.
fn glob_from(pieces: &Vec<Vec<u8>>, i: usize, text: &Vec<u8>, pos: usize) -> (r: bool)
    requires
        i < pieces@.len(),
        pos <= text@.len(),
    ensures
        r == glob_matches(
            pieces.deep_view().subrange(i as int, pieces@.len() as int),
            text@.subrange(pos as int, text@.len() as int),
        ),
    decreases pieces@.len() - i,
{
    let n = text.len();
    let np = pieces.len();
    let ghost ps = pieces.deep_view().subrange(i as int, pieces@.len() as int);
    let ghost t = text@.subrange(pos as int, text@.len() as int);
    assert(ps[0] == pieces[i as int]@);
    let first = &pieces[i];
    if i == pieces.len() - 1 {
        let found = occurs_at(first, text, pos) && first.len() == text.len() - pos;
        proof {
            if found {
                assert(t =~= ps[0]);
            }
        }
        return found;
    }
    if !occurs_at(first, text, pos) {
        return false;
    }
    assert(first@.len() <= t.len());
    let ghost rest = ps.drop_first();
    let ghost u = t.subrange(first@.len() as int, t.len() as int);
    assert(rest =~= pieces.deep_view().subrange(i + 1, pieces@.len() as int));
    proof {
        lemma_wildcard_then(rest, u);
    }
    let mut k: usize = pos + first.len();
    loop
        invariant
            n == text@.len(),
            np == pieces@.len(),
            ps[0] == first@,
            first@.is_prefix_of(t),
            pos + first@.len() <= k <= text@.len(),
            pos <= text@.len(),
            i + 1 < pieces@.len(),
            ps == pieces.deep_view().subrange(i as int, pieces@.len() as int),
            t == text@.subrange(pos as int, text@.len() as int),
            rest == ps.drop_first(),
            u == t.subrange(first@.len() as int, t.len() as int),
            wildcard_then(rest, u) <==> exists|j: int|
                0 <= j <= u.len() && #[trigger] glob_matches(
                    rest,
                    u.subrange(j, u.len() as int),
                ),
            rest =~= pieces.deep_view().subrange(i + 1, pieces@.len() as int),
            forall|k2: int|
                ps[0].len() <= k2 < k - pos ==> !#[trigger] glob_matches(
                    rest,
                    t.subrange(k2, t.len() as int),
                ),
        ensures
            forall|k2: int|
                ps[0].len() <= k2 <= t.len() ==> !#[trigger] glob_matches(
                    rest,
                    t.subrange(k2, t.len() as int),
                ),
        decreases text@.len() - k,
    {
        let m = glob_from(pieces, i + 1, text, k);
        assert(t.subrange(k - pos, t.len() as int) =~= text@.subrange(k as int, text@.len() as int));
        if m {
            assert(u.subrange(k - pos - first@.len(), u.len() as int) =~= t.subrange(
                k - pos,
                t.len() as int,
            ));
            return true;
        }
        if k == n {
            assert(!glob_matches(rest, t.subrange(t.len() as int, t.len() as int)));
            break;
        }
        k = k + 1;
    }
    assert forall|j: int| 0 <= j <= u.len() implies !#[trigger] glob_matches(
        rest,
        u.subrange(j, u.len() as int),
    ) by {
        assert(u.subrange(j, u.len() as int) =~= t.subrange(j + first@.len(), t.len() as int));
    }
    false
}

/// Whether some pattern of the list matches the path.
pub open spec fn any_pattern_matches(patterns: Seq<Seq<u8>>, path: Seq<u8>) -> bool {
    exists|i: int| 0 <= i < patterns.len() && #[trigger] pattern_matches(patterns[i], path)
}

/// Whether a path requires authentication: in an exclusion list when no
/// pattern matches it, in an inclusion list when some pattern does.
pub open spec fn requires_auth(is_exclusion_list: bool, patterns: Seq<Seq<u8>>, path: Seq<u8>) -> bool {
    if is_exclusion_list {
        !any_pattern_matches(patterns, path)
    } else {
        any_pattern_matches(patterns, path)
    }
}

/// The UTF-8 bytes of each text of a list.
pub open spec fn texts_bytes(list: Seq<&str>) -> Seq<Seq<u8>> {
    list.map_values(|s: &str| s.spec_bytes())
}

/// A pattern with its compiled pieces.
pub struct PathPattern {
    source: &'static str,
    pieces: Vec<Vec<u8>>,
}

impl PathPattern {
    /// The pattern's text, as UTF-8 bytes.
    pub closed spec fn text(&self) -> Seq<u8> {
        self.source.spec_bytes()
    }

    /// The pieces are the compiled form of the text.
    pub closed spec fn wf(&self) -> bool {
        self.pieces.deep_view() == compiled(self.text())
    }

    /// Compiles a pattern: cuts it at each wildcard and percent-encodes
    /// each piece.
    pub fn new(source: &'static str) -> (r: PathPattern)
        ensures
            r.wf(),
            r.text() == source.spec_bytes(),
    {
        let b = source.as_bytes();
        let mut pieces: Vec<Vec<u8>> = Vec::new();
        let mut cur: Vec<u8> = Vec::new();
        let mut j: usize = 0;
        while j < b.len()
            invariant
                b@ == source.spec_bytes(),
                j <= b@.len(),
                pieces@.len() + 1 == split_at_wildcards(b@.subrange(0, j as int)).len(),
                forall|q: int|
                    0 <= q < pieces@.len() ==> #[trigger] pieces@[q]@ == percent_encoded(
                        split_at_wildcards(b@.subrange(0, j as int))[q],
                    ),
                cur@ == split_at_wildcards(b@.subrange(0, j as int)).last(),
            decreases b@.len() - j,
        {
            proof {
                lemma_split_nonempty(b@.subrange(0, j as int));
                assert(b@.subrange(0, j + 1).drop_last() =~= b@.subrange(0, j as int));
            }
            if b[j] == WILDCARD {
                let enc = percent_encode(cur.as_slice());
                pieces.push(enc);
                cur = Vec::new();
            } else {
                cur.push(b[j]);
            }
            j = j + 1;
        }
        let enc = percent_encode(cur.as_slice());
        pieces.push(enc);
        proof {
            assert(b@.subrange(0, b@.len() as int) =~= b@);
            let sp = split_at_wildcards(b@);
            lemma_split_nonempty(b@);
            assert(pieces.deep_view() =~= compiled(b@)) by {
                assert forall|q: int| 0 <= q < pieces@.len() implies pieces.deep_view()[q]
                    == compiled(b@)[q] by {
                    assert(pieces.deep_view()[q] == pieces@[q]@);
                }
            }
        }
        PathPattern { source, pieces }
    }

    /// Whether the pattern matches a percent-encoded path.
    fn matches_encoded(&self, encoded: &Vec<u8>) -> (r: bool)
        requires
            self.wf(),
        ensures
            r == glob_matches(compiled(self.text()), encoded@),
    {
        proof {
            lemma_split_nonempty(self.text());
            assert(self.pieces.deep_view().subrange(0, self.pieces@.len() as int)
                =~= self.pieces.deep_view());
            assert(encoded@.subrange(0, encoded@.len() as int) =~= encoded@);
        }
        glob_from(&self.pieces, 0, encoded, 0)
    }
}

/// Decides whether a request path requires authentication, from a list of
/// patterns that is either the protected paths (inclusion) or the public
/// ones (exclusion).
pub struct PathMatcher {
    is_exclusion_list: bool,
    patterns: Vec<PathPattern>,
}

impl PathMatcher {
    /// Whether the patterns list the public paths.
    pub closed spec fn is_exclusion(&self) -> bool {
        self.is_exclusion_list
    }

    /// The texts of the patterns, in order, as UTF-8 bytes.
    pub closed spec fn patterns(&self) -> Seq<Seq<u8>> {
        self.patterns@.map_values(|p: PathPattern| p.text())
    }

    /// Each pattern is held in its compiled form.
    pub closed spec fn wf(&self) -> bool {
        forall|i: int| 0 <= i < self.patterns@.len() ==> #[trigger] self.patterns@[i].wf()
    }

    /// Everything requires authentication but the paths that start with
    /// `/login` or `/register`.
    pub fn default() -> (m: Self)
        ensures
            m.wf(),
            m.is_exclusion(),
            m.patterns() == default_public_patterns(),
    {
        let m = Self::new(vec!["/login*", "/register*"], true);
        proof {
            reveal_strlit("/login*");
            reveal_strlit("/register*");
        }
        m
    }

    /// A matcher over the given patterns; with `is_exclusion_list` they are
    /// the public paths, else the protected ones.
    pub fn new(path_list: Vec<&'static str>, is_exclusion_list: bool) -> (m: Self)
        ensures
            m.wf(),
            m.is_exclusion() == is_exclusion_list,
            m.patterns() == texts_bytes(path_list@),
    {
        let mut patterns: Vec<PathPattern> = Vec::new();
        let mut i: usize = 0;
        while i < path_list.len()
            invariant
                i <= path_list@.len(),
                patterns@.len() == i,
                forall|q: int| 0 <= q < i ==> #[trigger] patterns@[q].wf(),
                forall|q: int|
                    0 <= q < i ==> #[trigger] patterns@[q].text() == path_list@[q].spec_bytes(),
            decreases path_list@.len() - i,
        {
            let pattern = PathPattern::new(path_list[i]);
            patterns.push(pattern);
            i = i + 1;
        }
        let m = Self { is_exclusion_list, patterns };
        assert(m.patterns() =~= texts_bytes(path_list@));
        m
    }

    /// Whether the path requires authentication.
    pub fn matches(&self, path: &str) -> (r: bool)
        requires
            self.wf(),
        ensures
            r == requires_auth(self.is_exclusion(), self.patterns(), path.spec_bytes()),
    {
        let encoded = percent_encode(path.as_bytes());
        let ghost pats = self.patterns();
        let mut i: usize = 0;
        while i < self.patterns.len()
            invariant
                self.wf(),
                pats == self.patterns(),
                encoded@ == percent_encoded(path.spec_bytes()),
                i <= self.patterns@.len(),
                forall|q: int| 0 <= q < i ==> !#[trigger] pattern_matches(pats[q], path.spec_bytes()),
            decreases self.patterns@.len() - i,
        {
            if self.patterns[i].matches_encoded(&encoded) {
                assert(pattern_matches(pats[i as int], path.spec_bytes()));
                return !self.is_exclusion_list;
            }
            i = i + 1;
        }
        self.is_exclusion_list
    }
}

/// The texts of the default public paths: `/login*` and `/register*`.
pub open spec fn default_public_patterns() -> Seq<Seq<u8>> {
    seq!["/login*".spec_bytes(), "/register*".spec_bytes()]
}

/// Under the default matcher, a path that matches `/login*` or
/// `/register*` needs no authentication.
pub proof fn lemma_default_public(path: Seq<u8>)
    requires
        pattern_matches("/login*".spec_bytes(), path) || pattern_matches(
            "/register*".spec_bytes(),
            path,
        ),
    ensures
        !requires_auth(true, default_public_patterns(), path),
{
    let pats = default_public_patterns();
    if pattern_matches("/login*".spec_bytes(), path) {
        assert(pattern_matches(pats[0], path));
    } else {
        assert(pattern_matches(pats[1], path));
    }
}

/// Percent-encoding works byte by byte: the encoding of a concatenation is
/// the concatenation of the encodings.
pub proof fn lemma_percent_encoded_concat(a: Seq<u8>, b: Seq<u8>)
    ensures
        percent_encoded(a + b) == percent_encoded(a) + percent_encoded(b),
    decreases b.len(),
{
    if b.len() == 0 {
        assert(a + b =~= a);
        assert(percent_encoded(a) + percent_encoded(b) =~= percent_encoded(a));
    } else {
        lemma_percent_encoded_concat(a, b.drop_last());
        assert((a + b).drop_last() =~= a + b.drop_last());
        assert(percent_encoded(a) + percent_encoded(b) =~= percent_encoded(a) + percent_encoded(
            b.drop_last(),
        ) + encoded_byte(b.last()));
    }
}

proof fn lemma_split_without_wildcard(b: Seq<u8>)
    requires
        !b.contains(WILDCARD),
    ensures
        split_at_wildcards(b) == seq![b],
    decreases b.len(),
{
    if b.len() == 0 {
        assert(b =~= Seq::<u8>::empty());
        assert(split_at_wildcards(b) =~= seq![b]);
    } else {
        assert(!b.drop_last().contains(WILDCARD)) by {
            if b.drop_last().contains(WILDCARD) {
                let i = choose|i: int| 0 <= i < b.drop_last().len() && b.drop_last()[i] == WILDCARD;
                assert(b[i] == WILDCARD);
            }
        }
        lemma_split_without_wildcard(b.drop_last());
        assert(b.last() != WILDCARD) by {
            assert(b[b.len() - 1] == b.last());
        }
        assert(b.drop_last().push(b.last()) =~= b);
        assert(split_at_wildcards(b) =~= seq![b]);
    }
}

proof fn lemma_trailing_wildcard_matches_all(text: Seq<u8>)
    ensures
        wildcard_then(seq![Seq::<u8>::empty()], text),
    decreases text.len(),
{
    if text.len() > 0 {
        lemma_trailing_wildcard_matches_all(text.drop_first());
    } else {
        assert(text =~= seq![Seq::<u8>::empty()][0]);
        assert(glob_matches(seq![Seq::<u8>::empty()], text));
    }
}

/// A pattern that is a wildcard-free prefix followed by one wildcard
/// matches every path that starts with the prefix.
pub proof fn lemma_prefix_pattern_matches(prefix: Seq<u8>, path: Seq<u8>)
    requires
        !prefix.contains(WILDCARD),
        prefix.is_prefix_of(path),
    ensures
        pattern_matches(prefix.push(WILDCARD), path),
{
    let pattern = prefix.push(WILDCARD);
    assert(pattern.drop_last() =~= prefix);
    lemma_split_without_wildcard(prefix);
    let sp = split_at_wildcards(pattern);
    assert(sp =~= seq![prefix, Seq::<u8>::empty()]);
    let pieces = compiled(pattern);
    assert(percent_encoded(Seq::<u8>::empty()) =~= Seq::<u8>::empty());
    assert(pieces =~= seq![percent_encoded(prefix), Seq::<u8>::empty()]);
    let rest = path.subrange(prefix.len() as int, path.len() as int);
    assert(path =~= prefix + rest);
    lemma_percent_encoded_concat(prefix, rest);
    let text = percent_encoded(path);
    assert(percent_encoded(prefix).is_prefix_of(text)) by {
        assert(text.subrange(0, percent_encoded(prefix).len() as int) =~= percent_encoded(prefix));
    }
    assert(pieces.drop_first() =~= seq![Seq::<u8>::empty()]);
    lemma_trailing_wildcard_matches_all(
        text.subrange(percent_encoded(prefix).len() as int, text.len() as int),
    );
}

} // verus!
