//! The compatibility gate between generated code and this runtime.
//!
//! A version string is a core (`major.minor.patch`) optionally followed by a
//! suffix that starts with `-` (a pre-release marker, for instance). Two
//! versions are compatible exactly when their cores are equal; suffixes are
//! never compared, and either side may lack one.
use vstd::prelude::*;
use vstd::string::StringSliceAdditionalSpecFns;

verus! {

/// The byte that opens a version suffix, `-` in ASCII.
pub const SUFFIX_MARK: u8 = 0x2d;

/// The version of this runtime, which generated code must match.
pub const RUNTIME_VERSION: &'static str = "4.31.1-release";

/// Index of the first suffix mark at or after `i` in `s`, or the length of `s`
/// if there is none.
pub open spec fn core_end_from(s: Seq<u8>, i: int) -> int
    decreases s.len() - i,
{
    if 0 <= i < s.len() && s[i] != SUFFIX_MARK {
        core_end_from(s, i + 1)
    } else {
        i
    }
}

/// Length of the core of version `s`: everything before its first suffix mark.
pub open spec fn core_len(s: Seq<u8>) -> int {
    core_end_from(s, 0)
}

/// The core of version `s`.
pub open spec fn version_core(s: Seq<u8>) -> Seq<u8> {
    s.take(core_len(s))
}

/// Whether versions `a` and `b` may be used together.
pub open spec fn versions_compatible(a: Seq<u8>, b: Seq<u8>) -> bool {
    version_core(a) == version_core(b)
}

/// Whether `s` holds no suffix mark.
pub open spec fn is_bare_core(s: Seq<u8>) -> bool {
    forall|k: int| 0 <= k < s.len() ==> s[k] != SUFFIX_MARK
}

/// Whether `s` may follow a core: empty, or opened by a suffix mark.
pub open spec fn is_suffix(s: Seq<u8>) -> bool {
    s.len() == 0 || s[0] == SUFFIX_MARK
}

proof fn lemma_core_end_bounds(s: Seq<u8>, i: int)
    requires
        0 <= i <= s.len(),
    ensures
        i <= core_end_from(s, i) <= s.len(),
        forall|k: int| i <= k < core_end_from(s, i) ==> s[k] != SUFFIX_MARK,
        core_end_from(s, i) < s.len() ==> s[core_end_from(s, i)] == SUFFIX_MARK,
    decreases s.len() - i,
{
    if i < s.len() && s[i] != SUFFIX_MARK {
        lemma_core_end_bounds(s, i + 1);
    }
}

proof fn lemma_core_of_joined(c: Seq<u8>, x: Seq<u8>, i: int)
    requires
        is_bare_core(c),
        is_suffix(x),
        0 <= i <= c.len(),
    ensures
        core_end_from(c + x, i) == c.len(),
    decreases c.len() - i,
{
    let s = c + x;
    if i < c.len() {
        assert(s[i] == c[i]);
        lemma_core_of_joined(c, x, i + 1);
    } else if x.len() > 0 {
        assert(s[i] == x[0]);
    }
}

/// A version made of a core and a suffix has that core, whatever the suffix.
pub proof fn lemma_core_ignores_suffix(c: Seq<u8>, x: Seq<u8>)
    requires
        is_bare_core(c),
        is_suffix(x),
    ensures
        version_core(c + x) == c,
{
    lemma_core_of_joined(c, x, 0);
    assert((c + x).take(c.len() as int) =~= c);
}

/// Two versions, each a core followed by a suffix that may be absent, are
/// compatible exactly when their cores are equal; the suffixes, present or not,
/// equal or not, never matter.
pub proof fn lemma_compatible_iff_cores_equal(c1: Seq<u8>, x1: Seq<u8>, c2: Seq<u8>, x2: Seq<u8>)
    requires
        is_bare_core(c1),
        is_suffix(x1),
        is_bare_core(c2),
        is_suffix(x2),
    ensures
        versions_compatible(c1 + x1, c2 + x2) <==> c1 == c2,
{
    lemma_core_ignores_suffix(c1, x1);
    lemma_core_ignores_suffix(c2, x2);
}

/// Length of the core of the version held in `v`.
fn core_length(v: &[u8]) -> (r: usize)
    ensures
        r == core_len(v@),
{
    let mut i: usize = 0;
    while i < v.len() && v[i] != SUFFIX_MARK
        invariant
            0 <= i <= v@.len(),
            core_len(v@) == core_end_from(v@, i as int),
        decreases v@.len() - i,
    {
        i = i + 1;
    }
    i
}

/// Whether generated code of version `gencode_version` may run against a runtime
/// of version `runtime_version`: their cores must be equal byte for byte, and
/// their suffixes are ignored.
pub fn is_compatible_gencode_version(gencode_version: &str, runtime_version: &str) -> (r: bool)
    ensures
        r == versions_compatible(gencode_version.spec_bytes(), runtime_version.spec_bytes()),
{
    let a = gencode_version.as_bytes();
    let b = runtime_version.as_bytes();
    let la = core_length(a);
    let lb = core_length(b);
    proof {
        lemma_core_end_bounds(a@, 0);
        lemma_core_end_bounds(b@, 0);
    }
    if la != lb {
        assert(version_core(a@).len() != version_core(b@).len());
        return false;
    }
    let mut i: usize = 0;
    while i < la
        invariant
            a@ == gencode_version.spec_bytes(),
            b@ == runtime_version.spec_bytes(),
            la == lb,
            la == core_len(a@),
            lb == core_len(b@),
            la <= a@.len(),
            lb <= b@.len(),
            0 <= i <= la,
            forall|k: int| 0 <= k < i ==> a@[k] == b@[k],
        decreases la - i,
    {
        if a[i] != b[i] {
            assert(version_core(a@)[i as int] == a@[i as int]);
            assert(version_core(b@)[i as int] == b@[i as int]);
            assert(version_core(a@) != version_core(b@));
            return false;
        }
        i = i + 1;
    }
    assert(version_core(a@) =~= version_core(b@));
    true
}

/// Checks that generated code of version `gencode_version` may run against this
/// runtime. Generated code calls it once per unit; a version whose core differs
/// from the runtime's is outside its contract, which is how the mismatch is
/// rejected before any of the generated code can run.
pub fn assert_compatible_gencode_version(gencode_version: &'static str)
    requires
        versions_compatible(gencode_version.spec_bytes(), RUNTIME_VERSION.spec_bytes()),
{
    let compatible = is_compatible_gencode_version(gencode_version, RUNTIME_VERSION);
    assert(compatible);
}

} // verus!
