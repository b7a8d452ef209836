use vstd::prelude::*;

verus! {

/// The control character that ends every document on the wire.
pub open spec fn delim() -> char {
    '\u{1e}'
}

/// Scanning the first `n` characters of `s`: the non-empty segments completed
/// so far, and the run of characters since the last delimiter.
pub open spec fn scan(s: Seq<char>, n: int) -> (Seq<Seq<char>>, Seq<char>)
    decreases n,
{
    if n <= 0 {
        (seq![], seq![])
    } else {
        let p = scan(s, n - 1);
        if s[n - 1] == delim() {
            (if p.1.len() > 0 {
                p.0.push(p.1)
            } else {
                p.0
            }, seq![])
        } else {
            (p.0, p.1.push(s[n - 1]))
        }
    }
}

/// The non-empty delimiter-free pieces of `s`, in order.
pub open spec fn segments(s: Seq<char>) -> Seq<Seq<char>> {
    let p = scan(s, s.len() as int);
    if p.1.len() > 0 {
        p.0.push(p.1)
    } else {
        p.0
    }
}

/// The characters of each string.
pub open spec fn views(v: Seq<String>) -> Seq<Seq<char>> {
    v.map_values(|x: String| x@)
}

/// Splits one inbound batch on the delimiter, dropping empty pieces.
pub fn split_batch(raw: &str) -> (r: Vec<String>)
    ensures
        views(r@) == segments(raw@),
{
    broadcast use vstd::string::group_string_axioms;

    let n = raw.unicode_len();
    let mut out: Vec<String> = Vec::new();
    let mut start: usize = 0;
    let mut i: usize = 0;
    for c in it: raw.chars()
        invariant
            n == raw@.len(),
            it.seq() == raw@,
            i == it.index(),
            start <= i <= n,
            scan(raw@, i as int) == (views(out@), raw@.subrange(start as int, i as int)),
    {
        assert(c == raw@[i as int]);
        let ghost prev = out@;
        if c == '\u{1e}' {
            if start < i {
                out.push(String::from_str(raw.substring_char(start, i)));
                assert(views(out@) =~= views(prev).push(raw@.subrange(start as int, i as int)));
            }
            start = i + 1;
            assert(raw@.subrange(start as int, start as int) =~= seq![]);
        } else {
            assert(raw@.subrange(start as int, i + 1) =~= raw@.subrange(start as int, i as int).push(c));
        }
        i = i + 1;
    }
    if start < n {
        let ghost prev = out@;
        out.push(String::from_str(raw.substring_char(start, n)));
        assert(views(out@) =~= views(prev).push(raw@.subrange(start as int, n as int)));
    }
    out
}

/// A run of characters without a delimiter extends the current segment.
proof fn lemma_scan_run(s: Seq<char>, k: int, n: int)
    requires
        0 <= k <= n <= s.len(),
        forall|j: int| k <= j < n ==> s[j] != delim(),
    ensures
        scan(s, n) == (scan(s, k).0, scan(s, k).1 + s.subrange(k, n)),
    decreases n - k,
{
    if n == k {
        assert(scan(s, k).1 + s.subrange(k, n) =~= scan(s, k).1);
    } else {
        lemma_scan_run(s, k, n - 1);
        assert(scan(s, k).1 + s.subrange(k, n) =~= (scan(s, k).1 + s.subrange(k, n - 1)).push(
            s[n - 1],
        ));
    }
}

/// Two non-empty delimiter-free documents, each followed by the delimiter,
/// split into exactly those two documents; a batch of two bare delimiters
/// splits into nothing.
pub proof fn lemma_split_two(a: Seq<char>, b: Seq<char>)
    requires
        a.len() > 0,
        b.len() > 0,
        forall|j: int| 0 <= j < a.len() ==> a[j] != delim(),
        forall|j: int| 0 <= j < b.len() ==> b[j] != delim(),
    ensures
        segments(a.push(delim()) + b.push(delim())) == seq![a, b],
        segments(seq![delim(), delim()]) == Seq::<Seq<char>>::empty(),
{
    let s = a.push(delim()) + b.push(delim());
    let la = a.len() as int;
    let lb = b.len() as int;
    assert forall|j: int| 0 <= j < la implies s[j] != delim() by {
        assert(s[j] == a[j]);
    }
    lemma_scan_run(s, 0, la);
    assert(s.subrange(0, la) =~= a);
    assert(s[la] == delim());
    assert forall|j: int| la + 1 <= j < la + 1 + lb implies s[j] != delim() by {
        assert(s[j] == b[j - la - 1]);
    }
    lemma_scan_run(s, la + 1, la + 1 + lb);
    assert(s.subrange(la + 1, la + 1 + lb) =~= b);
    assert(seq![] + b =~= b);
    assert(s[la + 1 + lb] == delim());
    assert(s.len() == la + lb + 2);
    let e = seq![delim(), delim()];
    assert(e[0] == delim() && e[1] == delim());
    assert(scan(e, 0) == (Seq::<Seq<char>>::empty(), Seq::<char>::empty()));
    assert(scan(e, 1) == (Seq::<Seq<char>>::empty(), Seq::<char>::empty()));
    assert(scan(e, 2) == (Seq::<Seq<char>>::empty(), Seq::<char>::empty()));
}

/// Ends a serialised document with the delimiter.
pub fn frame_document(text: &str) -> (r: String)
    ensures
        r@ == text@.push(delim()),
{
    proof {
        reveal_strlit("\u{1e}");
    }
    let r = String::from_str(text).concat("\u{1e}");
    assert(r@ =~= text@.push(delim()));
    r
}

} // verus!
