//! Text handling for the type catalog: matching names against the filter
//! prompt, finding the crate a type path comes from, and alphabetical order.
use vstd::prelude::*;
use vstd::string::StrSliceExecFns;

verus! {

/// `needle` occurs in `haystack` starting at position `i`.
pub open spec fn occurs_at(haystack: Seq<char>, needle: Seq<char>, i: int) -> bool {
    &&& 0 <= i
    &&& i + needle.len() <= haystack.len()
    &&& haystack.subrange(i, i + needle.len()) == needle
}

/// `needle` occurs somewhere in `haystack` (as `str::contains` with a `&str` pattern).
pub open spec fn contains_infix(haystack: Seq<char>, needle: Seq<char>) -> bool {
    exists|i: int| occurs_at(haystack, needle, i)
}

/// What `str::to_lowercase` makes of a string: Unicode's lowercase mapping,
/// applied character by character with its context rules.
pub uninterp spec fn lowercase_of(s: Seq<char>) -> Seq<char>;

/// `str::to_lowercase`: the result is the lowercase mapping of the argument's characters.
#[verifier::external_body]
fn to_lowercase(s: &str) -> (r: String)
    ensures
        r@ == lowercase_of(s@),
{
    s.to_lowercase()
}

/// The characters of `s`, in order.
pub fn chars_of(s: &str) -> (v: Vec<char>)
    ensures
        v@ == s@,
{
    let n = s.unicode_len();
    let mut v: Vec<char> = Vec::new();
    let mut i: usize = 0;
    while i < n
        invariant
            n == s@.len(),
            i <= n,
            v@ == s@.take(i as int),
        decreases n - i,
    {
        let c = s.get_char(i);
        v.push(c);
        i += 1;
        assert(v@ =~= s@.take(i as int));
    }
    assert(v@ =~= s@);
    v
}

fn occurs_at_exec(haystack: &Vec<char>, needle: &Vec<char>, i: usize) -> (r: bool)
    requires
        i + needle.len() <= haystack.len(),
    ensures
        r == occurs_at(haystack@, needle@, i as int),
{
    let n = needle.len();
    let mut j: usize = 0;
    while j < n
        invariant
            n == needle.len(),
            i + n <= haystack.len(),
            j <= n,
            forall|k: int| 0 <= k < j ==> haystack@[i + k] == needle@[k],
        decreases n - j,
    {
        if haystack[i + j] != needle[j] {
            assert(haystack@.subrange(i as int, i + n)[j as int] != needle@[j as int]);
            return false;
        }
        j += 1;
    }
    assert(haystack@.subrange(i as int, i + n) =~= needle@);
    true
}

/// Whether `needle` occurs in `haystack`.
pub fn contains_chars(haystack: &Vec<char>, needle: &Vec<char>) -> (r: bool)
    ensures
        r == contains_infix(haystack@, needle@),
{
    if needle.len() > haystack.len() {
        return false;
    }
    let last = haystack.len() - needle.len();
    let mut i: usize = 0;
    loop
        invariant
            last == haystack.len() - needle.len(),
            needle.len() <= haystack.len(),
            i <= last,
            forall|k: int| 0 <= k < i ==> !occurs_at(haystack@, needle@, k),
        decreases last - i,
    {
        if occurs_at_exec(haystack, needle, i) {
            return true;
        }
        if i == last {
            return false;
        }
        i += 1;
    }
}

/// A name passes the filter prompt when the prompt is empty, or when the
/// lowercased prompt occurs in the lowercased name.
pub open spec fn prompt_matches(name: Seq<char>, prompt: Seq<char>) -> bool {
    prompt.len() == 0 || contains_infix(lowercase_of(name), lowercase_of(prompt))
}

/// Whether `name` passes the filter `prompt` (case-insensitive substring match).
pub fn name_matches_prompt(name: &str, prompt: &str) -> (r: bool)
    ensures
        r == prompt_matches(name@, prompt@),
{
    if prompt.is_empty() {
        return true;
    }
    let lower_name = to_lowercase(name);
    let lower_prompt = to_lowercase(prompt);
    let haystack = chars_of(lower_name.as_str());
    let needle = chars_of(lower_prompt.as_str());
    contains_chars(&haystack, &needle)
}

/// A `::` separator starts at position `i` of `s`.
pub open spec fn separator_at(s: Seq<char>, i: int) -> bool {
    &&& 0 <= i
    &&& i + 1 < s.len()
    &&& s[i] == ':'
    &&& s[i + 1] == ':'
}

/// `s` holds a `::` separator at `i` and at no earlier position.
pub open spec fn first_separator_at(s: Seq<char>, i: int) -> bool {
    separator_at(s, i) && forall|j: int| 0 <= j < i ==> !separator_at(s, j)
}

/// The crate that a type path names: the part before its first `::`, or the
/// text `ERROR GETTING SOURCE` when it holds none.
pub open spec fn origin_of(path: Seq<char>) -> Seq<char> {
    if exists|i: int| separator_at(path, i) {
        path.take(choose|i: int| first_separator_at(path, i))
    } else {
        "ERROR GETTING SOURCE"@
    }
}

proof fn lemma_first_separator_unique(s: Seq<char>, i: int, k: int)
    requires
        first_separator_at(s, i),
        first_separator_at(s, k),
    ensures
        i == k,
{
}

/// The crate a type path comes from: what precedes its first `::`
/// (as `split_once("::")` gives it), or `ERROR GETTING SOURCE`.
pub fn crate_of_path(path: &str) -> (r: String)
    ensures
        r@ == origin_of(path@),
{
    let cs = chars_of(path);
    let n = cs.len();
    let mut i: usize = 0;
    while n > 1 && i < n - 1
        invariant
            n == cs.len(),
            cs@ == path@,
            forall|j: int| 0 <= j < i ==> !separator_at(path@, j),
        decreases n - i,
    {
        if cs[i] == ':' && cs[i + 1] == ':' {
            proof {
                assert(first_separator_at(path@, i as int));
                let k = choose|k: int| first_separator_at(path@, k);
                lemma_first_separator_unique(path@, i as int, k);
            }
            let prefix = path.substring_char(0, i);
            return prefix.to_owned();
        }
        i += 1;
    }
    proof {
        assert forall|j: int| !separator_at(path@, j) by {
            if separator_at(path@, j) {
                assert(j < i);
            }
        }
    }
    "ERROR GETTING SOURCE".to_owned()
}

/// Lexicographic order of character sequences by code point; for strings this
/// is the order of `str`'s `Ord`, since UTF-8 keeps code point order.
pub open spec fn chars_le(a: Seq<char>, b: Seq<char>) -> bool
    decreases a.len(),
{
    if a.len() == 0 {
        true
    } else if b.len() == 0 {
        false
    } else if a[0] != b[0] {
        (a[0] as int) < (b[0] as int)
    } else {
        chars_le(a.drop_first(), b.drop_first())
    }
}

pub proof fn lemma_chars_le_total(a: Seq<char>, b: Seq<char>)
    ensures
        chars_le(a, b) || chars_le(b, a),
    decreases a.len(),
{
    if a.len() > 0 && b.len() > 0 && a[0] == b[0] {
        lemma_chars_le_total(a.drop_first(), b.drop_first());
    }
}

pub proof fn lemma_chars_le_transitive(a: Seq<char>, b: Seq<char>, c: Seq<char>)
    requires
        chars_le(a, b),
        chars_le(b, c),
    ensures
        chars_le(a, c),
    decreases a.len(),
{
    if a.len() > 0 && b.len() > 0 && c.len() > 0 && a[0] == b[0] && b[0] == c[0] {
        lemma_chars_le_transitive(a.drop_first(), b.drop_first(), c.drop_first());
    }
}

/// Whether `a` comes no later than `b` in lexicographic order.
pub fn chars_le_exec(a: &Vec<char>, b: &Vec<char>) -> (r: bool)
    ensures
        r == chars_le(a@, b@),
{
    let mut i: usize = 0;
    assert(a@.skip(0) =~= a@);
    assert(b@.skip(0) =~= b@);
    while i < a.len() && i < b.len()
        invariant
            i <= a.len(),
            i <= b.len(),
            chars_le(a@, b@) == chars_le(a@.skip(i as int), b@.skip(i as int)),
        decreases a.len() - i,
    {
        if a[i] != b[i] {
            return a[i] < b[i];
        }
        assert(a@.skip(i as int).drop_first() =~= a@.skip(i + 1));
        assert(b@.skip(i as int).drop_first() =~= b@.skip(i + 1));
        i += 1;
    }
    i == a.len()
}

/// Positions `0..n` listed in the order of the names at those positions.
pub open spec fn is_alphabetical_order(names: Seq<Seq<char>>, order: Seq<usize>) -> bool {
    &&& order.len() == names.len()
    &&& order.no_duplicates()
    &&& forall|k: int| 0 <= k < order.len() ==> order[k] < names.len()
    &&& forall|j: usize| j < names.len() ==> #[trigger] order.contains(j)
    &&& forall|p: int, q: int|
        0 <= p < q < order.len() ==> chars_le(names[order[p] as int], names[order[q] as int])
}

/// The views of a list of strings.
pub open spec fn string_views(names: Seq<String>) -> Seq<Seq<char>> {
    names.map_values(|s: String| s@)
}

/// The positions of `names`, sorted so that their names come in alphabetical
/// order (the order a `sort_by` with `str::cmp` gives, up to equal names).
pub fn alphabetical_order(names: &Vec<String>) -> (order: Vec<usize>)
    ensures
        is_alphabetical_order(string_views(names@), order@),
{
    let ghost views = string_views(names@);
    let n = names.len();
    let mut keys: Vec<Vec<char>> = Vec::new();
    let mut i: usize = 0;
    while i < n
        invariant
            n == names.len(),
            views == string_views(names@),
            i <= n,
            keys.len() == i,
            forall|k: int| 0 <= k < i ==> #[trigger] keys@[k]@ == views[k],
        decreases n - i,
    {
        let key = chars_of(names[i].as_str());
        keys.push(key);
        i += 1;
    }
    let mut order: Vec<usize> = Vec::new();
    let mut i: usize = 0;
    while i < n
        invariant
            n == names.len(),
            views == string_views(names@),
            views.len() == n,
            keys.len() == n,
            forall|k: int| 0 <= k < n ==> #[trigger] keys@[k]@ == views[k],
            i <= n,
            order.len() == i,
            order@.no_duplicates(),
            forall|k: int| 0 <= k < order.len() ==> order@[k] < i,
            forall|j: usize| j < i ==> #[trigger] order@.contains(j),
            forall|p: int, q: int|
                0 <= p < q < order.len() ==> chars_le(
                    views[order@[p] as int],
                    views[order@[q] as int],
                ),
        decreases n - i,
    {
        let mut pos: usize = 0;
        while pos < order.len() && chars_le_exec(&keys[order[pos]], &keys[i])
            invariant
                keys.len() == n,
                forall|k: int| 0 <= k < n ==> #[trigger] keys@[k]@ == views[k],
                i < n,
                pos <= order.len(),
                forall|k: int| 0 <= k < order.len() ==> order@[k] < i,
                forall|p: int| 0 <= p < pos ==> chars_le(views[order@[p] as int], views[i as int]),
            decreases order.len() - pos,
        {
            pos += 1;
        }
        proof {
            if pos < order.len() {
                lemma_chars_le_total(views[order@[pos as int] as int], views[i as int]);
                assert forall|q: int| pos <= q < order.len() implies chars_le(
                    views[i as int],
                    views[order@[q] as int],
                ) by {
                    if q > pos {
                        lemma_chars_le_transitive(
                            views[i as int],
                            views[order@[pos as int] as int],
                            views[order@[q] as int],
                        );
                    }
                }
            }
        }
        let ghost old_order = order@;
        order.insert(pos, i);
        proof {
            let new_order = order@;
            assert(new_order == old_order.insert(pos as int, i));
            assert forall|p: int, q: int|
                0 <= p < q < new_order.len() implies chars_le(
                views[new_order[p] as int],
                views[new_order[q] as int],
            ) by {
                if q < pos {
                } else if q == pos {
                } else if p < pos {
                    assert(new_order[q] == old_order[q - 1]);
                    if p < q - 1 {
                    }
                    lemma_chars_le_transitive(
                        views[new_order[p] as int],
                        views[i as int],
                        views[new_order[q] as int],
                    );
                } else if p == pos {
                } else {
                    assert(new_order[p] == old_order[p - 1]);
                    assert(new_order[q] == old_order[q - 1]);
                }
            }
            assert forall|j: usize| j < i + 1 implies #[trigger] new_order.contains(j) by {
                if j < i {
                    assert(old_order.contains(j));
                    let k = choose|k: int| 0 <= k < old_order.len() && old_order[k] == j;
                    if k < pos {
                        assert(new_order[k] == j);
                    } else {
                        assert(new_order[k + 1] == j);
                    }
                } else {
                    assert(new_order[pos as int] == i);
                }
            }
            assert forall|a: int, b: int|
                0 <= a < new_order.len() && 0 <= b < new_order.len() && a != b implies new_order[a]
                != new_order[b] by {
                if a != pos && b != pos {
                    let a0 = if a < pos { a } else { a - 1 };
                    let b0 = if b < pos { b } else { b - 1 };
                    assert(new_order[a] == old_order[a0]);
                    assert(new_order[b] == old_order[b0]);
                }
            }
        }
        i += 1;
    }
    order
}

/// An empty prompt lets every name through.
pub proof fn law_empty_prompt_matches_all(name: Seq<char>)
    ensures
        prompt_matches(name, Seq::<char>::empty()),
{
}

/// A path that holds no `::` is reported as coming from no known crate; one
/// that holds one comes from the crate named before its first `::`, a prefix of it.
pub proof fn law_origin_is_prefix_or_error(path: Seq<char>)
    ensures
        !(exists|i: int| separator_at(path, i)) ==> origin_of(path) == "ERROR GETTING SOURCE"@,
        (exists|i: int| separator_at(path, i)) ==> path.subrange(0, origin_of(path).len() as int)
            == origin_of(path) && separator_at(path, origin_of(path).len() as int),
{
    if exists|i: int| separator_at(path, i) {
        let k0 = choose|i: int| separator_at(path, i);
        lemma_first_separator_exists(path, k0);
        let k = choose|k: int| first_separator_at(path, k);
        assert(path.take(k).len() == k);
        assert(path.subrange(0, k) =~= path.take(k));
    }
}

proof fn lemma_first_separator_exists(s: Seq<char>, i: int)
    requires
        separator_at(s, i),
    ensures
        exists|k: int| first_separator_at(s, k),
    decreases i,
{
    if !first_separator_at(s, i) {
        let j = choose|j: int| 0 <= j < i && separator_at(s, j);
        lemma_first_separator_exists(s, j);
    }
}

/// Lexicographic order: where two names first differ at `k`, the one with the
/// smaller character there comes first, and the other does not; `k` may be any
/// position.
pub proof fn law_chars_le_first_difference(a: Seq<char>, b: Seq<char>, k: int)
    requires
        0 <= k < a.len(),
        k < b.len(),
        forall|j: int| 0 <= j < k ==> a[j] == b[j],
        (a[k] as int) < (b[k] as int),
    ensures
        chars_le(a, b),
        !chars_le(b, a),
    decreases k,
{
    if k > 0 {
        law_chars_le_first_difference(a.drop_first(), b.drop_first(), k - 1);
    }
}

/// A name comes no later than every name it begins, and a name comes later than
/// each proper beginning of it.
pub proof fn law_chars_le_prefix(a: Seq<char>, b: Seq<char>)
    requires
        a.len() <= b.len(),
        b.take(a.len() as int) == a,
    ensures
        chars_le(a, b),
        a.len() < b.len() ==> !chars_le(b, a),
    decreases a.len(),
{
    if a.len() > 0 {
        assert(a[0] == b.take(a.len() as int)[0]);
        assert(b.drop_first().take(a.drop_first().len() as int) =~= a.drop_first());
        law_chars_le_prefix(a.drop_first(), b.drop_first());
    }
}

/// Two names that each come no later than the other are the same name.
pub proof fn law_chars_le_antisymmetric(a: Seq<char>, b: Seq<char>)
    requires
        chars_le(a, b),
        chars_le(b, a),
    ensures
        a == b,
    decreases a.len(),
{
    if a.len() > 0 && b.len() > 0 {
        law_chars_le_antisymmetric(a.drop_first(), b.drop_first());
        assert(a =~= seq![a[0]] + a.drop_first());
        assert(b =~= seq![b[0]] + b.drop_first());
    }
}

/// A non-empty prompt lets a name through exactly when the whole lowercased
/// prompt occurs, character for character, somewhere in the lowercased name.
pub proof fn law_prompt_matches_whole_prompt(name: Seq<char>, prompt: Seq<char>)
    requires
        prompt.len() > 0,
    ensures
        prompt_matches(name, prompt) <==> exists|i: int|
            0 <= i && i + lowercase_of(prompt).len() <= lowercase_of(name).len()
                && #[trigger] lowercase_of(name).subrange(i, i + lowercase_of(prompt).len())
                == lowercase_of(prompt),
{
    let h = lowercase_of(name);
    let n = lowercase_of(prompt);
    if prompt_matches(name, prompt) {
        let i = choose|i: int| occurs_at(h, n, i);
        assert(h.subrange(i, i + n.len()) == n);
    }
    if exists|i: int| 0 <= i && i + n.len() <= h.len() && #[trigger] h.subrange(i, i + n.len()) == n {
        let i = choose|i: int| 0 <= i && i + n.len() <= h.len() && #[trigger] h.subrange(i, i + n.len()) == n;
        assert(occurs_at(h, n, i));
    }
}

/// The origin of a path that holds a `::` is cut at its first one: it is the
/// path's beginning up to a `::`, and no `::` starts anywhere inside it.
pub proof fn law_origin_cut_at_first_separator(path: Seq<char>)
    requires
        exists|i: int| 0 <= i && i + 1 < path.len() && #[trigger] path[i] == ':' && path[i + 1] == ':',
    ensures
        origin_of(path).len() + 1 < path.len(),
        path.take(origin_of(path).len() as int) == origin_of(path),
        path[origin_of(path).len() as int] == ':',
        path[origin_of(path).len() as int + 1] == ':',
        forall|j: int|
            0 <= j < origin_of(path).len() ==> !(path[j] == ':' && #[trigger] path[j + 1] == ':'),
{
    let i0 = choose|i: int| 0 <= i && i + 1 < path.len() && #[trigger] path[i] == ':' && path[i + 1] == ':';
    assert(separator_at(path, i0));
    lemma_first_separator_exists(path, i0);
    let k = choose|k: int| first_separator_at(path, k);
    assert(origin_of(path) == path.take(k));
    assert forall|j: int|
        0 <= j < origin_of(path).len() implies !(path[j] == ':' && #[trigger] path[j + 1] == ':') by {
        if path[j] == ':' && path[j + 1] == ':' {
            assert(separator_at(path, j));
        }
    }
}

} // verus!
