//! Values a build script derives from the target description, and the
//! directives it hands to cargo.

use vstd::prelude::*;

verus! {

/// The pieces of `s` between the `-` separators, from left to right; a string
/// without separators is a single piece.
pub open spec fn split_dash(s: Seq<char>) -> Seq<Seq<char>>
    decreases s.len(),
{
    if s.len() == 0 {
        seq![Seq::empty()]
    } else {
        let prev = split_dash(s.drop_last());
        if s.last() == '-' {
            prev.push(Seq::empty())
        } else {
            prev.update(prev.len() - 1, prev.last().push(s.last()))
        }
    }
}

pub proof fn lemma_split_dash_nonempty(s: Seq<char>)
    ensures
        split_dash(s).len() >= 1,
    decreases s.len(),
{
    if s.len() > 0 {
        lemma_split_dash_nonempty(s.drop_last());
    }
}

/// A piece without separators splits into itself.
pub proof fn lemma_split_no_dash(s: Seq<char>)
    requires
        !s.contains('-'),
    ensures
        split_dash(s) == seq![s],
    decreases s.len(),
{
    if s.len() > 0 {
        let p = s.drop_last();
        assert(!p.contains('-')) by {
            if p.contains('-') {
                let i = choose|i: int| 0 <= i < p.len() && p[i] == '-';
                assert(s[i] == '-');
            }
        }
        lemma_split_no_dash(p);
        assert(s.last() != '-') by {
            assert(s[s.len() - 1] == s.last());
        }
        assert(p.push(s.last()) =~= s);
        assert(seq![p].update(0, p.push(s.last())) =~= seq![s]);
    } else {
        assert(s =~= Seq::<char>::empty());
        assert(split_dash(s) =~= seq![s]);
    }
}

/// Joining two texts with a separator joins their pieces.
pub proof fn lemma_split_join(a: Seq<char>, b: Seq<char>)
    ensures
        split_dash(a.push('-') + b) == split_dash(a) + split_dash(b),
    decreases b.len(),
{
    let j = a.push('-') + b;
    if b.len() == 0 {
        assert(j =~= a.push('-'));
        assert(a.push('-').drop_last() =~= a);
        assert(split_dash(a).push(Seq::empty()) =~= split_dash(a) + split_dash(b));
    } else {
        let b2 = b.drop_last();
        assert(j.drop_last() =~= a.push('-') + b2);
        assert(j.last() == b.last());
        lemma_split_join(a, b2);
        lemma_split_dash_nonempty(b2);
        lemma_split_dash_nonempty(a);
        let x = split_dash(a);
        let y = split_dash(b2);
        if b.last() == '-' {
            assert((x + y).push(Seq::empty()) =~= x + y.push(Seq::empty()));
        } else {
            assert((x + y).update((x + y).len() - 1, (x + y).last().push(b.last())) =~= x + y.update(
                y.len() - 1,
                y.last().push(b.last()),
            ));
        }
    }
}

/// The target that a triple names, when it has at least three pieces; a
/// fourth piece is the ABI and any further pieces are ignored.
pub open spec fn target_of(s: Seq<char>) -> Option<(Seq<char>, Seq<char>, Seq<char>, Option<Seq<char>>)> {
    let parts = split_dash(s);
    if parts.len() < 3 {
        None
    } else {
        Some((parts[0], parts[1], parts[2], if parts.len() > 3 { Some(parts[3]) } else { None }))
    }
}

pub open spec fn views(v: Seq<String>) -> Seq<Seq<char>> {
    v.map_values(|x: String| x@)
}

/// Writing a target out and reading the text back gives the same pieces,
/// when none of them holds a `-`.
pub proof fn lemma_triple_round_trip(t: Target)
    requires
        !t.architecture@.contains('-'),
        !t.vendor@.contains('-'),
        !t.system@.contains('-'),
        t.abi is Some ==> !t.abi.unwrap()@.contains('-'),
    ensures
        split_dash(t.spec_triple()).len() >= 3,
        target_of(t.spec_triple()) == Some(
            (
                t.architecture@,
                t.vendor@,
                t.system@,
                match t.abi {
                    Some(abi) => Some(abi@),
                    None => None,
                },
            ),
        ),
{
    reveal_strlit("-");
    let a = t.architecture@;
    let v = t.vendor@;
    let s = t.system@;
    lemma_split_no_dash(a);
    lemma_split_no_dash(v);
    lemma_split_no_dash(s);
    lemma_split_join(a, v);
    assert(a + "-"@ + v =~= a.push('-') + v);
    let av = a.push('-') + v;
    lemma_split_join(av, s);
    assert(av + "-"@ + s =~= av.push('-') + s);
    let base = av.push('-') + s;
    assert(split_dash(base) =~= seq![a, v, s]);
    match t.abi {
        Some(abi) => {
            lemma_split_no_dash(abi@);
            lemma_split_join(base, abi@);
            assert(base + "-"@ + abi@ =~= base.push('-') + abi@);
            assert(split_dash(base.push('-') + abi@) =~= seq![a, v, s, abi@]);
        },
        None => {},
    }
}

/// Splits `s` at every `-`.
pub fn split_dashes(s: &str) -> (r: Vec<String>)
    ensures
        views(r@) == split_dash(s@),
{
    let n = s.unicode_len();
    let mut parts: Vec<String> = Vec::new();
    let mut start: usize = 0;
    let mut i: usize = 0;
    proof {
        assert(s@.take(0) =~= Seq::<char>::empty());
        assert(views(parts@).push(s@.subrange(0, 0)) =~= split_dash(s@.take(0)));
    }
    while i < n
        invariant
            n == s@.len(),
            start <= i <= n,
            views(parts@).push(s@.subrange(start as int, i as int)) == split_dash(s@.take(i as int)),
        decreases n - i,
    {
        let c = s.get_char(i);
        proof {
            assert(s@.take(i as int + 1).drop_last() =~= s@.take(i as int));
            assert(s@.take(i as int + 1).last() == c);
        }
        if c == '-' {
            let piece = String::from_str(s.substring_char(start, i));
            proof {
                assert(views(parts@.push(piece)) =~= views(parts@).push(piece@));
            }
            parts.push(piece);
            start = i + 1;
            proof {
                assert(s@.subrange(start as int, i as int + 1) =~= Seq::<char>::empty());
            }
        } else {
            proof {
                let prev = split_dash(s@.take(i as int));
                assert(s@.subrange(start as int, i as int + 1) =~= s@.subrange(start as int, i as int).push(c));
                assert(views(parts@).push(s@.subrange(start as int, i as int + 1)) =~= prev.update(prev.len() - 1, prev.last().push(c)));
            }
        }
        i = i + 1;
    }
    let last = String::from_str(s.substring_char(start, n));
    proof {
        assert(s@.take(n as int) =~= s@);
        assert(views(parts@.push(last)) =~= views(parts@).push(last@));
    }
    parts.push(last);
    parts
}

/// Reads a target triple such as `x86_64-unknown-linux-gnu`, which has at
/// least three pieces.
pub fn parse_target(target_str: &str) -> (r: Target)
    requires
        split_dash(target_str@).len() >= 3,
    ensures
        match target_of(target_str@) {
            Some((a, v, s, abi)) => r.architecture@ == a && r.vendor@ == v && r.system@ == s
                && match (r.abi, abi) {
                (Some(x), Some(y)) => x@ == y,
                (None, None) => true,
                _ => false,
            },
            None => false,
        },
{
    let parts = split_dashes(target_str);
    proof {
        assert(views(parts@).len() == parts@.len());
        assert(views(parts@)[0] == parts@[0]@);
        assert(views(parts@)[1] == parts@[1]@);
        assert(views(parts@)[2] == parts@[2]@);
        if parts@.len() > 3 {
            assert(views(parts@)[3] == parts@[3]@);
        }
    }
    let abi = if parts.len() > 3 {
        Some(parts[3].clone())
    } else {
        None
    };
    Target {
        architecture: parts[0].clone(),
        vendor: parts[1].clone(),
        system: parts[2].clone(),
        abi,
    }
}

/// Whether a build profile asks for a release build: `Some(true)` for
/// `release`, `Some(false)` for `debug`, `None` for any other profile.
pub fn build_release(profile: &str) -> (r: Option<bool>)
    ensures
        r == (if profile@ == "release"@ {
            Some(true)
        } else if profile@ == "debug"@ {
            Some(false)
        } else {
            None::<bool>
        }),
{
    proof {
        reveal_strlit("release");
        reveal_strlit("debug");
    }
    let p = String::from_str(profile);
    if p == String::from_str("release") {
        Some(true)
    } else if p == String::from_str("debug") {
        Some(false)
    } else {
        None
    }
}

pub open spec fn directive(key: Seq<char>, value: Seq<char>) -> Seq<char> {
    "cargo:"@ + key + "="@ + value
}

pub open spec fn warning_directive(warn: Seq<char>) -> Seq<char> {
    directive("warning"@, warn)
}

/// Appends the directive `cargo:key=value` to `out`.
fn push_directive(out: &mut Vec<String>, key: &str, value: &str)
    ensures
        final(out)@.len() == old(out)@.len() + 1,
        forall|i: int| 0 <= i < old(out)@.len() ==> final(out)@[i] == old(out)@[i],
        final(out)@.last()@ == directive(key@, value@),
{
    proof {
        reveal_strlit("cargo:");
        reveal_strlit("=");
    }
    out.push(String::from_str("cargo:").concat(key).concat("=").concat(value));
}

/// Asks cargo to show `message` as a warning.
pub fn warning(out: &mut Vec<String>, message: &str)
    ensures
        final(out)@.len() == old(out)@.len() + 1,
        forall|i: int| 0 <= i < old(out)@.len() ==> final(out)@[i] == old(out)@[i],
        final(out)@.last()@ == warning_directive(message@),
{
    proof {
        reveal_strlit("warning");
    }
    push_directive(out, "warning", message);
}
pub open spec fn rerun_if_changed_directive(path: Seq<char>) -> Seq<char> {
    directive("rerun-if-changed"@, path)
}

pub open spec fn rerun_if_env_changed_directive(name: Seq<char>) -> Seq<char> {
    directive("rerun-if-env-changed"@, name)
}

pub open spec fn link_lib_directive(lib: Seq<char>) -> Seq<char> {
    directive("rustc-link-lib"@, lib)
}

pub open spec fn link_search_directive(dir: Seq<char>) -> Seq<char> {
    directive("rustc-link-search"@, dir)
}

/// Asks cargo to run the build again when the file at `path` changes.
pub fn rerun_if_changed(out: &mut Vec<String>, path: &str)
    ensures
        final(out)@.len() == old(out)@.len() + 1,
        forall|i: int| 0 <= i < old(out)@.len() ==> final(out)@[i] == old(out)@[i],
        final(out)@.last()@ == rerun_if_changed_directive(path@),
{
    proof {
        reveal_strlit("rerun-if-changed");
    }
    push_directive(out, "rerun-if-changed", path);
}

/// Asks cargo to run the build again when the environment variable `name`
/// changes.
pub fn rerun_if_env_changed(out: &mut Vec<String>, name: &str)
    ensures
        final(out)@.len() == old(out)@.len() + 1,
        forall|i: int| 0 <= i < old(out)@.len() ==> final(out)@[i] == old(out)@[i],
        final(out)@.last()@ == rerun_if_env_changed_directive(name@),
{
    proof {
        reveal_strlit("rerun-if-env-changed");
    }
    push_directive(out, "rerun-if-env-changed", name);
}

/// Asks cargo to link the library `lib`.
pub fn add_link_lib(out: &mut Vec<String>, lib: &str)
    ensures
        final(out)@.len() == old(out)@.len() + 1,
        forall|i: int| 0 <= i < old(out)@.len() ==> final(out)@[i] == old(out)@[i],
        final(out)@.last()@ == link_lib_directive(lib@),
{
    proof {
        reveal_strlit("rustc-link-lib");
    }
    push_directive(out, "rustc-link-lib", lib);
}

/// Asks cargo to look for libraries in `dir`.
pub fn add_link_search(out: &mut Vec<String>, dir: &str)
    ensures
        final(out)@.len() == old(out)@.len() + 1,
        forall|i: int| 0 <= i < old(out)@.len() ==> final(out)@[i] == old(out)@[i],
        final(out)@.last()@ == link_search_directive(dir@),
{
    proof {
        reveal_strlit("rustc-link-search");
    }
    push_directive(out, "rustc-link-search", dir);
}

/// Asks cargo to link each library of `libs`, in order.
pub fn add_link_libs(out: &mut Vec<String>, libs: &[String])
    ensures
        final(out)@.len() == old(out)@.len() + libs@.len(),
        forall|i: int| 0 <= i < old(out)@.len() ==> final(out)@[i] == old(out)@[i],
        forall|j: int|
            0 <= j < libs@.len() ==> (#[trigger] final(out)@[old(out)@.len() + j])@
                == link_lib_directive(libs@[j]@),
{
    let ghost start = out@;
    let mut k: usize = 0;
    while k < libs.len()
        invariant
            k <= libs@.len(),
            out@.len() == start.len() + k,
            forall|i: int| 0 <= i < start.len() ==> out@[i] == start[i],
            forall|j: int|
                0 <= j < k ==> (#[trigger] out@[start.len() + j])@ == link_lib_directive(libs@[j]@),
        decreases libs@.len() - k,
    {
        add_link_lib(out, libs[k].as_str());
        k = k + 1;
    }
}

/// A target triple, as `architecture-vendor-system[-abi]`.
#[derive(Clone, Debug)]
pub struct Target {
    pub architecture: String,
    pub vendor: String,
    pub system: String,
    pub abi: Option<String>,
}

impl Target {
    pub fn is_windows(&self) -> (r: bool)
        ensures
            r == (self.system@ == "windows"@),
    {
        let windows = String::from_str("windows");
        proof {
            reveal_strlit("windows");
        }
        self.system == windows
    }

    /// The file name of a static library `name` on this target.
    pub fn library_to_filename(&self, name: &str) -> (r: String)
        ensures
            r@ == self.spec_library_filename(name@),
    {
        proof {
            reveal_strlit(".lib");
            reveal_strlit("lib");
            reveal_strlit(".a");
        }
        if self.is_windows() {
            String::from_str(name).concat(".lib")
        } else {
            String::from_str("lib").concat(name).concat(".a")
        }
    }

    pub fn as_strs(&self) -> (r: (&str, &str, &str, Option<&str>))
        ensures
            r.0@ == self.architecture@,
            r.1@ == self.vendor@,
            r.2@ == self.system@,
            (r.3 is Some) == (self.abi is Some),
            self.abi is Some ==> (r.3.unwrap()@ == self.abi.unwrap()@),
    {
        let abi = match &self.abi {
            Some(a) => Some(a.as_str()),
            None => None,
        };
        (self.architecture.as_str(), self.vendor.as_str(), self.system.as_str(), abi)
    }

    /// The triple as text: the pieces joined by `-`, the ABI last when there
    /// is one.
    pub fn to_string(&self) -> (r: String)
        ensures
            r@ == self.spec_triple(),
    {
        proof {
            reveal_strlit("-");
        }
        let mut r = self.architecture.clone().concat("-").concat(self.vendor.as_str()).concat(
            "-",
        ).concat(self.system.as_str());
        match &self.abi {
            Some(abi) => {
                r = r.concat("-").concat(abi.as_str());
            },
            None => {},
        }
        r
    }

    pub open spec fn spec_library_filename(&self, name: Seq<char>) -> Seq<char> {
        if self.system@ == "windows"@ {
            name + ".lib"@
        } else {
            "lib"@ + name + ".a"@
        }
    }

    pub open spec fn spec_triple(&self) -> Seq<char> {
        let base = self.architecture@ + "-"@ + self.vendor@ + "-"@ + self.system@;
        match self.abi {
            Some(abi) => base + "-"@ + abi@,
            None => base,
        }
    }
}

} // verus!
