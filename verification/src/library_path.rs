//! Where the bridge's library is looked for, and in which order the places are tried.
use vstd::prelude::*;

use crate::utils::str_starts_with;

verus! {

/// The directory searched when no custom directory is set.
pub const DEFAULT_SEARCH_DIRECTORY: &'static str = "C:\\Program Files\\Java\\jre1.8.0_*\\bin";

/// The directory to search for the library: the custom one when it is set, else the default.
pub fn get_search_directory(custom: Option<String>) -> (dir: String)
    ensures
        dir@ == match custom {
            Some(c) => c@,
            None => DEFAULT_SEARCH_DIRECTORY@,
        },
{
    match custom {
        Some(c) => c,
        None => String::from_str(DEFAULT_SEARCH_DIRECTORY),
    }
}

/// A directory name that looks like a Java installation: it starts with `jre` or `jdk`.
pub open spec fn is_java_install_name(name: Seq<char>) -> bool {
    "jre"@.is_prefix_of(name) || "jdk"@.is_prefix_of(name)
}

/// Whether a directory name looks like a Java installation (starts with `jre` or `jdk`).
pub fn is_java_install_dir(name: &str) -> (looks: bool)
    ensures
        looks == is_java_install_name(name@),
{
    str_starts_with(name, "jre") || str_starts_with(name, "jdk")
}

/// A place where the library may be: the custom directory, `JAVA_HOME\bin`, or the `bin`
/// directory of an entry (by position) of the Java installation directory.
#[derive(Debug, Clone, Copy, PartialEq, Eq, Structural)]
pub enum LibraryCandidate {
    CustomDirectory,
    JavaHome,
    InstallDirectory(usize),
}

/// The entries among the first `n` of `names` that look like Java installations, in order.
pub open spec fn install_candidates(names: Seq<Seq<char>>, n: int) -> Seq<LibraryCandidate>
    decreases n,
{
    if n <= 0 {
        Seq::empty()
    } else {
        let before = install_candidates(names, n - 1);
        if is_java_install_name(names[n - 1]) {
            before.push(LibraryCandidate::InstallDirectory((n - 1) as usize))
        } else {
            before
        }
    }
}

/// The order in which the places are tried: the custom directory when set, then
/// `JAVA_HOME\bin` when the variable is set, then the installation entries in listing order.
pub open spec fn candidate_order(has_custom: bool, has_java_home: bool, names: Seq<Seq<char>>) -> Seq<LibraryCandidate> {
    (if has_custom { seq![LibraryCandidate::CustomDirectory] } else { Seq::empty() })
        + (if has_java_home { seq![LibraryCandidate::JavaHome] } else { Seq::empty() })
        + install_candidates(names, names.len() as int)
}

/// The places to try for the library, in order.
pub fn library_candidates(has_custom: bool, has_java_home: bool, entry_names: &Vec<String>) -> (candidates: Vec<LibraryCandidate>)
    ensures
        candidates@ == candidate_order(has_custom, has_java_home, entry_names@.map_values(|s: String| s@)),
{
    let ghost names = entry_names@.map_values(|s: String| s@);
    let mut candidates: Vec<LibraryCandidate> = Vec::new();
    if has_custom {
        candidates.push(LibraryCandidate::CustomDirectory);
    }
    if has_java_home {
        candidates.push(LibraryCandidate::JavaHome);
    }
    let ghost head = candidates@;
    assert(head =~= (if has_custom { seq![LibraryCandidate::CustomDirectory] } else { Seq::empty() })
        + (if has_java_home { seq![LibraryCandidate::JavaHome] } else { Seq::empty() }));
    let n = entry_names.len();
    let mut k: usize = 0;
    while k < n
        invariant
            n == entry_names@.len(),
            names == entry_names@.map_values(|s: String| s@),
            k <= n,
            candidates@ == head + install_candidates(names, k as int),
        decreases n - k,
    {
        if is_java_install_dir(entry_names[k].as_str()) {
            candidates.push(LibraryCandidate::InstallDirectory(k));
            assert(candidates@ =~= head + install_candidates(names, k + 1));
        } else {
            assert(candidates@ =~= head + install_candidates(names, k + 1));
        }
        k = k + 1;
    }
    candidates
}

/// The position of the first place where the library exists, if any.
pub fn first_existing(exists: &Vec<bool>) -> (found: Option<usize>)
    ensures
        found is None <==> forall|j: int| 0 <= j < exists@.len() ==> !exists@[j],
        found matches Some(i) ==> i < exists@.len() && exists@[i as int]
            && forall|j: int| 0 <= j < i ==> !exists@[j],
{
    let n = exists.len();
    let mut k: usize = 0;
    while k < n
        invariant
            n == exists@.len(),
            k <= n,
            forall|j: int| 0 <= j < k ==> !exists@[j],
        decreases n - k,
    {
        if exists[k] {
            return Some(k);
        }
        k = k + 1;
    }
    None
}

/// A directory name looks like a Java installation exactly when its first three characters
/// are `j`, `r`, `e` or `j`, `d`, `k`; what follows them does not matter.
pub proof fn lemma_java_install_name_chars(name: Seq<char>)
    ensures
        is_java_install_name(name) <==> (name.len() >= 3 && name[0] == 'j' && (
            (name[1] == 'r' && name[2] == 'e') || (name[1] == 'd' && name[2] == 'k'))),
{
    reveal_strlit("jre");
    reveal_strlit("jdk");
    if name.len() >= 3 && name[0] == 'j' && name[1] == 'r' && name[2] == 'e' {
        assert("jre"@ =~= name.subrange(0, 3));
    }
    if name.len() >= 3 && name[0] == 'j' && name[1] == 'd' && name[2] == 'k' {
        assert("jdk"@ =~= name.subrange(0, 3));
    }
    if "jre"@.is_prefix_of(name) {
        assert(name.subrange(0, 3)[0] == name[0]);
        assert(name.subrange(0, 3)[1] == name[1]);
        assert(name.subrange(0, 3)[2] == name[2]);
    }
    if "jdk"@.is_prefix_of(name) {
        assert(name.subrange(0, 3)[0] == name[0]);
        assert(name.subrange(0, 3)[1] == name[1]);
        assert(name.subrange(0, 3)[2] == name[2]);
    }
}

/// When `JAVA_HOME` is set it is tried right after the custom directory (first when there is
/// none), and before every installation directory; when it is not set it is never tried.
pub proof fn lemma_java_home_before_installs(has_custom: bool, has_java_home: bool, names: Seq<Seq<char>>)
    requires
        names.len() <= usize::MAX,
    ensures
        has_java_home ==> candidate_order(has_custom, true, names)[if has_custom { 1int } else { 0int }]
            == LibraryCandidate::JavaHome,
        has_java_home ==> forall|j: int| 0 <= j < candidate_order(has_custom, true, names).len()
            && (#[trigger] candidate_order(has_custom, true, names)[j]) is InstallDirectory
            ==> j > (if has_custom { 1int } else { 0int }),
        !has_java_home ==> !candidate_order(has_custom, false, names).contains(LibraryCandidate::JavaHome),
        has_custom ==> candidate_order(true, has_java_home, names)[0] == LibraryCandidate::CustomDirectory,
{
    let n = names.len() as int;
    lemma_install_candidates_exact(names, n);
    let inst = install_candidates(names, n);
    let head1 = if has_custom { seq![LibraryCandidate::CustomDirectory] } else { Seq::<LibraryCandidate>::empty() };
    let o = candidate_order(has_custom, true, names);
    assert(o == head1 + seq![LibraryCandidate::JavaHome] + inst);
    assert forall|j: int| 0 <= j < o.len() && (#[trigger] o[j]) is InstallDirectory
        implies j > (if has_custom { 1int } else { 0int }) by {
        if j <= (if has_custom { 1int } else { 0int }) {
            if has_custom && j == 0 {
                assert(o[j] == LibraryCandidate::CustomDirectory);
            } else {
                assert(o[j] == LibraryCandidate::JavaHome);
            }
        }
    }
    let o2 = candidate_order(has_custom, false, names);
    assert(o2 == head1 + Seq::<LibraryCandidate>::empty() + inst);
    if o2.contains(LibraryCandidate::JavaHome) {
        let j = choose|j: int| 0 <= j < o2.len() && o2[j] == LibraryCandidate::JavaHome;
        if has_custom && j == 0 {
            assert(o2[j] == LibraryCandidate::CustomDirectory);
        } else {
            let a = j - head1.len();
            assert(o2[j] == inst[a]);
            assert(inst[a] matches LibraryCandidate::InstallDirectory(x) && x < n);
        }
    }
}

/// The custom directory, when set, is tried before any other place.
pub proof fn lemma_custom_directory_first(has_java_home: bool, names: Seq<Seq<char>>)
    ensures
        candidate_order(true, has_java_home, names)[0] == LibraryCandidate::CustomDirectory,
{
}

/// An installation entry is tried exactly when its name starts with `jre` or `jdk`, and the
/// entries are tried in listing order.
pub proof fn lemma_install_candidates_exact(names: Seq<Seq<char>>, n: int)
    requires
        0 <= n <= names.len(),
        names.len() <= usize::MAX,
    ensures
        forall|i: int| 0 <= i < n ==>
            (install_candidates(names, n).contains(LibraryCandidate::InstallDirectory(i as usize))
                <==> is_java_install_name(names[i])),
        forall|a: int, b: int|
            #![trigger install_candidates(names, n)[a], install_candidates(names, n)[b]]
            0 <= a < b < install_candidates(names, n).len() ==>
            (install_candidates(names, n)[a] matches LibraryCandidate::InstallDirectory(x)
                && install_candidates(names, n)[b] matches LibraryCandidate::InstallDirectory(y) && x < y),
        forall|a: int| #![trigger install_candidates(names, n)[a]] 0 <= a < install_candidates(names, n).len() ==>
            (install_candidates(names, n)[a] matches LibraryCandidate::InstallDirectory(x) && x < n),
    decreases n,
{
    if n > 0 {
        lemma_install_candidates_exact(names, n - 1);
        let s = install_candidates(names, n);
        let t = install_candidates(names, n - 1);
        if is_java_install_name(names[n - 1]) {
            assert(s == t.push(LibraryCandidate::InstallDirectory((n - 1) as usize)));
            assert forall|i: int| 0 <= i < n implies
                (s.contains(LibraryCandidate::InstallDirectory(i as usize)) <==> is_java_install_name(names[i])) by {
                if i < n - 1 {
                    if s.contains(LibraryCandidate::InstallDirectory(i as usize)) {
                        let a = choose|a: int| 0 <= a < s.len() && s[a] == LibraryCandidate::InstallDirectory(i as usize);
                        if a < t.len() {
                            assert(t[a] == s[a]);
                        }
                    }
                    if t.contains(LibraryCandidate::InstallDirectory(i as usize)) {
                        let a = choose|a: int| 0 <= a < t.len() && t[a] == LibraryCandidate::InstallDirectory(i as usize);
                        assert(s[a] == t[a]);
                    }
                } else {
                    assert(s[s.len() - 1] == LibraryCandidate::InstallDirectory(i as usize));
                }
            }
            assert forall|a: int, b: int| #![trigger s[a], s[b]] 0 <= a < b < s.len() implies
                (s[a] matches LibraryCandidate::InstallDirectory(x)
                    && s[b] matches LibraryCandidate::InstallDirectory(y) && x < y) by {
                assert(s[a] == t[a]);
                if b < t.len() {
                    assert(s[b] == t[b]);
                }
            }
            assert forall|a: int| #![trigger s[a]] 0 <= a < s.len() implies
                (s[a] matches LibraryCandidate::InstallDirectory(x) && x < n) by {
                if a < t.len() {
                    assert(s[a] == t[a]);
                }
            }
        } else {
            assert(s == t);
            assert forall|i: int| 0 <= i < n implies
                (s.contains(LibraryCandidate::InstallDirectory(i as usize)) <==> is_java_install_name(names[i])) by {
                if i == n - 1 && s.contains(LibraryCandidate::InstallDirectory(i as usize)) {
                    let a = choose|a: int| 0 <= a < s.len() && s[a] == LibraryCandidate::InstallDirectory(i as usize);
                    assert(t[a] matches LibraryCandidate::InstallDirectory(x) && x < n - 1);
                }
            }
        }
    }
}

} // verus!
