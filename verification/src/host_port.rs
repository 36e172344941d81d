//! Taking the `host[:port]` part out of a URL and the server name out of it.
use vstd::prelude::*;

verus! {

/// `pat` occurs in `s` starting at index `i`.
pub open spec fn occurs_at(s: Seq<char>, pat: Seq<char>, i: int) -> bool {
    &&& 0 <= i
    &&& i + pat.len() <= s.len()
    &&& s.subrange(i, i + pat.len()) == pat
}

/// `i` is the first index at which `pat` occurs in `s`.
pub open spec fn first_occurrence(s: Seq<char>, pat: Seq<char>, i: int) -> bool {
    &&& occurs_at(s, pat, i)
    &&& forall|j: int| 0 <= j < i ==> !occurs_at(s, pat, j)
}

/// `pat` occurs somewhere in `s`.
pub open spec fn contains_pattern(s: Seq<char>, pat: Seq<char>) -> bool {
    exists|i: int| occurs_at(s, pat, i)
}

/// The index at which `pat` first occurs in `s` (meaningful where it occurs).
pub open spec fn first_index(s: Seq<char>, pat: Seq<char>) -> int {
    choose|i: int| first_occurrence(s, pat, i)
}

/// What precedes the first occurrence of `pat` in `s`, or all of `s` when `pat`
/// does not occur in it.
pub open spec fn before_first(s: Seq<char>, pat: Seq<char>) -> Seq<char> {
    if contains_pattern(s, pat) {
        s.take(first_index(s, pat))
    } else {
        s
    }
}

/// The separator between a URL's scheme and the rest of it.
pub open spec fn scheme_separator() -> Seq<char> {
    seq!['/', '/'].insert(0, ':')
}

/// What follows the first `://` of a URL.
pub open spec fn after_scheme(url: Seq<char>) -> Seq<char> {
    url.skip(first_index(url, scheme_separator()) + 3)
}

/// The `host[:port]` of a URL: what follows its first `://`, up to the first
/// `/` after that.
pub open spec fn host_port_of(url: Seq<char>) -> Seq<char> {
    before_first(after_scheme(url), seq!['/'])
}

/// The server name in a `host[:port]`: what precedes its first `:`.
pub open spec fn server_name_of(host_port: Seq<char>) -> Seq<char> {
    before_first(host_port, seq![':'])
}

/// There is at most one first occurrence of a pattern.
pub proof fn lemma_first_occurrence_unique(s: Seq<char>, pat: Seq<char>, i: int, j: int)
    requires
        first_occurrence(s, pat, i),
        first_occurrence(s, pat, j),
    ensures
        i == j,
{
}

/// A pattern that occurs in `s` has a first occurrence.
pub proof fn lemma_first_occurrence_exists(s: Seq<char>, pat: Seq<char>, k: int)
    requires
        occurs_at(s, pat, k),
    ensures
        exists|i: int| first_occurrence(s, pat, i),
    decreases k,
{
    if exists|j: int| 0 <= j < k && occurs_at(s, pat, j) {
        let j = choose|j: int| 0 <= j < k && occurs_at(s, pat, j);
        lemma_first_occurrence_exists(s, pat, j);
    } else {
        assert(first_occurrence(s, pat, k));
    }
}

/// Searches `s` for the first occurrence of `pat`, returning its index in chars.
fn find_pattern(s: &str, pat: &str) -> (res: Option<usize>)
    ensures
        match res {
            Some(i) => first_occurrence(s@, pat@, i as int),
            None => !contains_pattern(s@, pat@),
        },
{
    let n = s.unicode_len();
    let m = pat.unicode_len();
    if m > n {
        assert forall|i: int| !occurs_at(s@, pat@, i) by {}
        return None;
    }
    let mut i: usize = 0;
    while i <= n - m
        invariant
            n == s@.len(),
            m == pat@.len(),
            m <= n,
            i <= n - m + 1,
            forall|j: int| 0 <= j < i ==> !occurs_at(s@, pat@, j),
        decreases n - i,
    {
        let mut k: usize = 0;
        let mut matches = true;
        while k < m
            invariant
                n == s@.len(),
                m == pat@.len(),
                i + m <= n,
                k <= m,
                matches <==> (forall|t: int| 0 <= t < k ==> s@[i + t] == pat@[t]),
            decreases m - k,
        {
            if s.get_char(i + k) != pat.get_char(k) {
                matches = false;
            }
            k = k + 1;
        }
        if matches {
            assert(s@.subrange(i as int, i + m) =~= pat@);
            return Some(i);
        }
        assert(!occurs_at(s@, pat@, i as int)) by {
            if occurs_at(s@, pat@, i as int) {
                assert forall|t: int| 0 <= t < m implies s@[i + t] == pat@[t] by {
                    assert(s@.subrange(i as int, i + m)[t] == s@[i + t]);
                }
            }
        }
        i = i + 1;
    }
    assert forall|j: int| !occurs_at(s@, pat@, j) by {
        if occurs_at(s@, pat@, j) {
            assert(j < i);
        }
    }
    None
}

/// Returns what follows the first `://` of `url`, up to the first `/` after it:
/// the `host[:port]` of the URL.
pub fn extract_host_port(url: &str) -> (res: &str)
    requires
        contains_pattern(url@, scheme_separator()),
    ensures
        res@ == host_port_of(url@),
{
    let sep = "://";
    proof {
        reveal_strlit("://");
        assert(sep@ =~= scheme_separator());
    }
    let index = match find_pattern(url, sep) {
        Some(index) => index,
        None => {
            assert(false);
            0
        },
    };
    proof {
        let k = choose|k: int| first_occurrence(url@, scheme_separator(), k);
        lemma_first_occurrence_unique(url@, scheme_separator(), k, index as int);
        assert(first_index(url@, scheme_separator()) == index);
    }
    let n = url.unicode_len();
    let start = index + 3;
    let rest = url.substring_char(start, n);
    assert(rest@ =~= after_scheme(url@));
    let slash = "/";
    proof {
        reveal_strlit("/");
        assert(slash@ =~= seq!['/']);
    }
    match find_pattern(rest, slash) {
        Some(i) => {
            proof {
                let k = choose|k: int| first_occurrence(rest@, seq!['/'], k);
                lemma_first_occurrence_unique(rest@, seq!['/'], k, i as int);
            }
            let res = rest.substring_char(0, i);
            assert(res@ =~= rest@.take(i as int));
            res
        },
        None => rest,
    }
}

/// Returns what precedes the first `:` of `host_port`, or all of it when it
/// holds no `:`: the server name.
pub fn extract_server_name(host_port: &str) -> (res: &str)
    ensures
        res@ == server_name_of(host_port@),
{
    let colon = ":";
    proof {
        reveal_strlit(":");
        assert(colon@ =~= seq![':']);
    }
    match find_pattern(host_port, colon) {
        Some(i) => {
            proof {
                let k = choose|k: int| first_occurrence(host_port@, seq![':'], k);
                lemma_first_occurrence_unique(host_port@, seq![':'], k, i as int);
            }
            let res = host_port.substring_char(0, i);
            assert(res@ =~= host_port@.take(i as int));
            res
        },
        None => host_port,
    }
}

/// What precedes the first occurrence of a one-character pattern holds no
/// such character and is a prefix of the whole; when the character does not
/// occur, it is the whole.
pub proof fn lemma_before_first_char(s: Seq<char>, c: char)
    ensures
        !before_first(s, seq![c]).contains(c),
        before_first(s, seq![c]).len() <= s.len(),
        before_first(s, seq![c]) == s.take(before_first(s, seq![c]).len() as int),
        !s.contains(c) ==> before_first(s, seq![c]) == s,
{
    if contains_pattern(s, seq![c]) {
        let k = choose|k: int| occurs_at(s, seq![c], k);
        lemma_first_occurrence_exists(s, seq![c], k);
        let i = first_index(s, seq![c]);
        assert(first_occurrence(s, seq![c], i));
        assert forall|j: int| 0 <= j < i implies s[j] != c by {
            if s[j] == c {
                assert(s.subrange(j, j + 1) =~= seq![c]);
                assert(occurs_at(s, seq![c], j));
            }
        }
        assert forall|j: int| 0 <= j < i implies s.take(i)[j] != c by {
            assert(s.take(i)[j] == s[j]);
        }
        assert(s.subrange(i, i + 1)[0] == c);
        assert(s.contains(c));
    } else {
        assert forall|j: int| 0 <= j < s.len() implies s[j] != c by {
            if s[j] == c {
                assert(s.subrange(j, j + 1) =~= seq![c]);
                assert(occurs_at(s, seq![c], j));
            }
        }
        assert(s.take(s.len() as int) =~= s);
    }
}

/// The `host[:port]` of a URL holds no `/` and is how the part after the
/// URL's first `://` begins; that part is how the URL ends.
pub proof fn law_host_port_shape(url: Seq<char>)
    requires
        contains_pattern(url, scheme_separator()),
    ensures
        !host_port_of(url).contains('/'),
        host_port_of(url) == after_scheme(url).take(host_port_of(url).len() as int),
        after_scheme(url) == url.skip(url.len() - after_scheme(url).len()),
        url.take(url.len() - after_scheme(url).len()).len() >= 3,
{
    let k = choose|k: int| occurs_at(url, scheme_separator(), k);
    lemma_first_occurrence_exists(url, scheme_separator(), k);
    let i = first_index(url, scheme_separator());
    assert(first_occurrence(url, scheme_separator(), i));
    lemma_before_first_char(after_scheme(url), '/');
    assert(after_scheme(url) =~= url.skip(url.len() - after_scheme(url).len()));
}

/// The server name of a `host[:port]` holds no `:` and is how the
/// `host[:port]` begins; without a `:` it is all of it.
pub proof fn law_server_name_shape(host_port: Seq<char>)
    ensures
        !server_name_of(host_port).contains(':'),
        server_name_of(host_port) == host_port.take(server_name_of(host_port).len() as int),
        !host_port.contains(':') ==> server_name_of(host_port) == host_port,
{
    lemma_before_first_char(host_port, ':');
}

} // verus!
