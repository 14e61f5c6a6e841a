//! Extraction of the upstream user marker from a login response body.
//!
//! A successful login answer embeds `MFL_USER_ID="<value>">OK` somewhere in
//! its text; `<value>` holds no double quote. The leftmost occurrence wins.

use vstd::prelude::*;
use vstd::std_specs::iter::IteratorSpec;
use vstd::string::*;

verus! {

broadcast use {axiom_spec_iter, next_postcondition};

/// Text that opens the marker.
pub open spec fn marker_open() -> Seq<char> {
    seq!['M', 'F', 'L', '_', 'U', 'S', 'E', 'R', '_', 'I', 'D', '=', '"']
}

/// Text that closes the marker.
pub open spec fn marker_close() -> Seq<char> {
    seq!['"', '>', 'O', 'K']
}

/// No double quote among `b[lo..hi]`.
pub open spec fn quote_free(b: Seq<char>, lo: int, hi: int) -> bool {
    forall|k: int| lo <= k < hi ==> b[k] != '"'
}

/// A whole marker starts at `i`, and its value ends at `j`.
pub open spec fn marker_at(b: Seq<char>, i: int, j: int) -> bool {
    &&& 0 <= i
    &&& i + 13 <= j
    &&& j + 4 <= b.len()
    &&& b.subrange(i, i + 13) == marker_open()
    &&& quote_free(b, i + 13, j)
    &&& b.subrange(j, j + 4) == marker_close()
}

/// The marker at `i`, ending its value at `j`, is the leftmost one in `b`.
pub open spec fn first_marker_at(b: Seq<char>, i: int, j: int) -> bool {
    &&& marker_at(b, i, j)
    &&& forall|i2: int, j2: int| i2 < i ==> !marker_at(b, i2, j2)
}

/// `r` is what the leftmost marker of `b` carries, or `None` where `b` holds
/// no marker.
pub open spec fn is_marker_of(b: Seq<char>, r: Option<Seq<char>>) -> bool {
    match r {
        Some(v) => exists|i: int, j: int|
            #[trigger] first_marker_at(b, i, j) && v == b.subrange(i + 13, j),
        None => forall|i: int, j: int| !marker_at(b, i, j),
    }
}

/// A text holds at most one leftmost marker, so `is_marker_of` fixes its
/// result.
pub proof fn lemma_marker_unique(b: Seq<char>, r1: Option<Seq<char>>, r2: Option<Seq<char>>)
    requires
        is_marker_of(b, r1),
        is_marker_of(b, r2),
    ensures
        r1 == r2,
{
    match (r1, r2) {
        (Some(v1), Some(v2)) => {
            let (i1, j1) = choose|i: int, j: int|
                #[trigger] first_marker_at(b, i, j) && v1 == b.subrange(i + 13, j);
            let (i2, j2) = choose|i: int, j: int|
                #[trigger] first_marker_at(b, i, j) && v2 == b.subrange(i + 13, j);
            assert(!(i1 < i2));
            assert(!(i2 < i1));
            lemma_marker_end_unique(b, i1, j1, j2);
        },
        (Some(v1), None) => {
            let (i1, j1) = choose|i: int, j: int|
                #[trigger] first_marker_at(b, i, j) && v1 == b.subrange(i + 13, j);
            assert(marker_at(b, i1, j1));
        },
        (None, Some(v2)) => {
            let (i2, j2) = choose|i: int, j: int|
                #[trigger] first_marker_at(b, i, j) && v2 == b.subrange(i + 13, j);
            assert(marker_at(b, i2, j2));
        },
        (None, None) => {},
    }
}

/// Given a start, at most one end closes a marker value.
proof fn lemma_marker_end_unique(b: Seq<char>, i: int, j1: int, j2: int)
    requires
        marker_at(b, i, j1),
        marker_at(b, i, j2),
    ensures
        j1 == j2,
{
    assert(b[j1] == b.subrange(j1, j1 + 4)[0]);
    assert(b[j2] == b.subrange(j2, j2 + 4)[0]);
}

/// A marker whose value holds no double quote is found wherever it stands
/// in the text, as long as no marker starts before it.
pub proof fn lemma_marker_anywhere(pre: Seq<char>, v: Seq<char>, post: Seq<char>)
    requires
        quote_free(v, 0, v.len() as int),
        forall|i: int, j: int|
            i < pre.len() ==> !marker_at(pre + marker_open() + v + marker_close() + post, i, j),
    ensures
        is_marker_of(pre + marker_open() + v + marker_close() + post, Some(v)),
{
    let b = pre + marker_open() + v + marker_close() + post;
    let i = pre.len() as int;
    let j = i + 13 + v.len();
    assert(b.subrange(i, i + 13) =~= marker_open());
    assert(b.subrange(j, j + 4) =~= marker_close());
    assert(b.subrange(i + 13, j) =~= v);
    assert forall|k: int| i + 13 <= k < j implies b[k] != '"' by {
        assert(b[k] == v[k - i - 13]);
    }
    assert(marker_at(b, i, j));
    assert(first_marker_at(b, i, j));
}

/// The characters of `s`, one by one.
pub fn chars_of(s: &str) -> (r: Vec<char>)
    ensures
        r@ == s@,
{
    let mut out: Vec<char> = Vec::new();
    let mut it = s.chars();
    loop
        invariant
            it.obeys_prophetic_iter_laws(),
            it.decrease() is Some,
            out@ + it.remaining() == s@,
        ensures
            out@ == s@,
        decreases it.decrease()->0,
    {
        let ghost before = it.remaining();
        match it.next() {
            Some(c) => {
                out.push(c);
                assert(out@ + it.remaining() == s@) by {
                    assert(before == seq![c] + it.remaining());
                }
            },
            None => {
                assert(out@ == s@);
                break ;
            },
        }
    }
    out
}

/// Does `b[i..]` start with `pat`?
fn starts_at(b: &Vec<char>, i: usize, pat: &Vec<char>) -> (r: bool)
    requires
        i <= b.len(),
    ensures
        r == (i + pat.len() <= b.len() && b@.subrange(i as int, i + pat.len()) == pat@),
{
    if pat.len() > b.len() - i {
        return false;
    }
    let mut k: usize = 0;
    while k < pat.len()
        invariant
            i + pat.len() <= b.len(),
            k <= pat.len(),
            forall|m: int| 0 <= m < k ==> b@[i + m] == pat@[m],
        decreases pat.len() - k,
    {
        if b[i + k] != pat[k] {
            assert(b@.subrange(i as int, i + pat.len())[k as int] != pat@[k as int]);
            return false;
        }
        k = k + 1;
    }
    assert(b@.subrange(i as int, i + pat.len()) =~= pat@);
    true
}

/// Finds the value carried by the leftmost `MFL_USER_ID="<value>">OK` in
/// `body`, scanning the whole text.
pub fn find_login_marker(body: &str) -> (r: Option<String>)
    ensures
        is_marker_of(body@, match r {
            Some(v) => Some(v@),
            None => None,
        }),
{
    let b = chars_of(body);
    let open: Vec<char> = vec!['M', 'F', 'L', '_', 'U', 'S', 'E', 'R', '_', 'I', 'D', '=', '"'];
    let close: Vec<char> = vec!['"', '>', 'O', 'K'];
    assert(open@ =~= marker_open());
    assert(close@ =~= marker_close());
    let n = b.len();
    let mut i: usize = 0;
    while i < n
        invariant
            n == b.len(),
            b@ == body@,
            open@ == marker_open(),
            close@ == marker_close(),
            i <= n,
            forall|i2: int, j2: int| i2 < i ==> !marker_at(b@, i2, j2),
        decreases n - i,
    {
        if starts_at(&b, i, &open) {
            let mut j: usize = i + 13;
            while j < n && b[j] != '"'
                invariant
                    n == b.len(),
                    i + 13 <= j <= n,
                    quote_free(b@, i + 13, j as int),
                decreases n - j,
            {
                j = j + 1;
            }
            if j < n && starts_at(&b, j, &close) {
                assert(marker_at(b@, i as int, j as int));
                let v = body.substring_char(i + 13, j);
                let s = v.to_owned();
                assert(s@ == b@.subrange(i + 13, j as int));
                assert(first_marker_at(b@, i as int, j as int));
                return Some(s);
            }
            assert forall|j2: int| !marker_at(b@, i as int, j2) by {
                if marker_at(b@, i as int, j2) {
                    assert(b@[j2] == b@.subrange(j2, j2 + 4)[0]);
                    if j2 < j {
                    } else if j2 > j {
                        assert(b@[j as int] != '"');
                    } else {
                    }
                }
            }
        }
        i = i + 1;
    }
    None
}

} // verus!
