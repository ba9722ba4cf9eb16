//! Paths as the interface shows them, read at the byte level: the stem of a
//! file's name, and a path with the home directory folded to `~`.

use vstd::prelude::*;

verus! {

/// The end of the path once trailing `/` bytes are dropped.
pub open spec fn strip_seps_end(s: Seq<u8>, e: int) -> int
    decreases e,
{
    if e <= 0 {
        0
    } else if s[e - 1] == 47 {
        strip_seps_end(s, e - 1)
    } else {
        e
    }
}

/// The start of the path component that ends at `e`: the index after the
/// nearest `/` before `e`.
pub open spec fn comp_start(s: Seq<u8>, e: int) -> int
    decreases e,
{
    if e <= 0 {
        0
    } else if s[e - 1] == 47 {
        e
    } else {
        comp_start(s, e - 1)
    }
}

/// The last `.` strictly after `st` and before `j`; `st` when there is
/// none.
pub open spec fn last_dot(s: Seq<u8>, st: int, j: int) -> int
    decreases j - st,
{
    if j <= st + 1 {
        st
    } else if s[j - 1] == 46 {
        j - 1
    } else {
        last_dot(s, st, j - 1)
    }
}

/// The stem of the path's file name: the name is what follows the last `/`
/// once trailing `/` bytes are dropped; a name of `.` or `..`, or none at
/// all, yields nothing; a leading `.` does not begin an extension; the stem
/// ends before the last other `.`.
pub open spec fn spec_file_stem(s: Seq<u8>) -> Seq<u8> {
    let e = strip_seps_end(s, s.len() as int);
    let st = comp_start(s, e);
    if e == st {
        Seq::empty()
    } else if e - st == 1 && s[st] == 46 {
        Seq::empty()
    } else if e - st == 2 && s[st] == 46 && s[st + 1] == 46 {
        Seq::empty()
    } else {
        let d = last_dot(s, st, e);
        if d == st {
            s.subrange(st, e)
        } else {
            s.subrange(st, d)
        }
    }
}

/// The stem of the file name of `path`.
pub fn file_stem_of(path: &[u8]) -> (r: Vec<u8>)
    ensures
        r@ == spec_file_stem(path@),
{
    let n = path.len();
    let mut e = n;
    while e > 0 && path[e - 1] == 47
        invariant
            n == path@.len(),
            e <= n,
            strip_seps_end(path@, n as int) == strip_seps_end(path@, e as int),
        decreases e,
    {
        e -= 1;
    }
    assert(strip_seps_end(path@, n as int) == e as int);
    let mut st = e;
    while st > 0 && path[st - 1] != 47
        invariant
            n == path@.len(),
            st <= e <= n,
            comp_start(path@, e as int) == comp_start(path@, st as int),
        decreases st,
    {
        st -= 1;
    }
    assert(comp_start(path@, e as int) == st as int);
    if e == st {
        return Vec::new();
    }
    if e - st == 1 && path[st] == 46 {
        return Vec::new();
    }
    if e - st == 2 && path[st] == 46 && path[st + 1] == 46 {
        return Vec::new();
    }
    let mut d = e;
    while d > st + 1 && path[d - 1] != 46
        invariant
            n == path@.len(),
            st < e <= n,
            st + 1 <= d <= e,
            last_dot(path@, st as int, e as int) == last_dot(path@, st as int, d as int),
        decreases d,
    {
        d -= 1;
    }
    let stem_end = if d > st + 1 {
        assert(last_dot(path@, st as int, e as int) == d - 1);
        d - 1
    } else {
        assert(last_dot(path@, st as int, e as int) == st as int);
        e
    };
    let mut out: Vec<u8> = Vec::new();
    let mut i = st;
    while i < stem_end
        invariant
            st <= i <= stem_end <= n,
            n == path@.len(),
            out@ =~= path@.subrange(st as int, i as int),
        decreases stem_end - i,
    {
        out.push(path[i]);
        assert(out@ =~= path@.subrange(st as int, i + 1));
        i += 1;
    }
    out
}

/// The path as shown: the home directory itself becomes `~/`, a path under
/// it keeps its tail behind `~`, any other path is unchanged.
pub open spec fn spec_display_path(path: Seq<u8>, home: Seq<u8>) -> Seq<u8> {
    if path == home {
        seq![126u8, 47u8]
    } else if path.len() > home.len() && path.take(home.len() as int) == home && path[home.len() as int]
        == 47 {
        seq![126u8] + path.skip(home.len() as int)
    } else {
        path
    }
}

/// Whether `p` is the first bytes of `s`.
fn is_byte_prefix(p: &[u8], s: &[u8]) -> (r: bool)
    ensures
        r == (p@.len() <= s@.len() && s@.take(p@.len() as int) == p@),
{
    let np = p.len();
    let ns = s.len();
    if np > ns {
        return false;
    }
    let mut i: usize = 0;
    while i < np
        invariant
            np == p@.len(),
            ns == s@.len(),
            np <= ns,
            i <= np,
            forall|j: int| 0 <= j < i ==> p@[j] == s@[j],
        decreases np - i,
    {
        if p[i] != s[i] {
            assert(s@.take(np as int) != p@) by {
                assert(s@.take(np as int)[i as int] == s@[i as int]);
            }
            return false;
        }
        i += 1;
    }
    assert(s@.take(np as int) =~= p@);
    true
}

/// Shows `path` with the home directory `home` folded to `~`.
pub fn display_path(path: &[u8], home: &[u8]) -> (r: Vec<u8>)
    ensures
        r@ == spec_display_path(path@, home@),
{
    let np = path.len();
    let nh = home.len();
    let same_prefix = is_byte_prefix(home, path);
    if same_prefix && np == nh {
        proof {
            assert(path@.take(nh as int) =~= path@);
            assert(path@ =~= home@);
        }
        let mut out: Vec<u8> = Vec::new();
        out.push(126);
        out.push(47);
        assert(out@ =~= seq![126u8, 47u8]);
        return out;
    }
    if same_prefix && np > nh && path[nh] == 47 {
        let mut out: Vec<u8> = Vec::new();
        out.push(126);
        let mut k = nh;
        while k < np
            invariant
                nh <= k <= np,
                np == path@.len(),
                out@ =~= seq![126u8] + path@.subrange(nh as int, k as int),
            decreases np - k,
        {
            out.push(path[k]);
            assert(out@ =~= seq![126u8] + path@.subrange(nh as int, k + 1));
            k += 1;
        }
        assert(out@ =~= seq![126u8] + path@.skip(nh as int));
        return out;
    }
    proof {
        if path@ == home@ {
            assert(path@.take(nh as int) =~= home@);
            assert(false);
        }
    }
    let mut out: Vec<u8> = Vec::new();
    let mut k: usize = 0;
    while k < np
        invariant
            k <= np == path@.len(),
            out@ =~= path@.subrange(0, k as int),
        decreases np - k,
    {
        out.push(path[k]);
        assert(out@ =~= path@.subrange(0, k + 1));
        k += 1;
    }
    assert(out@ =~= path@);
    out
}

} // verus!
