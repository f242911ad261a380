//! Validation of the product identity: Cargo's SemVer spelling becomes the
//! user-facing version with its release-stage suffix.

use vstd::prelude::*;
use vstd::string::{StrSliceExecFns, StringExecFns};

use crate::search::{first_from, lemma_first_from_unique};
use crate::text::str_equal;

verus! {

pub open spec fn is_digit(c: char) -> bool {
    '0' <= c && c <= '9'
}

/// One version component: nonempty decimal digits without a leading zero.
pub open spec fn numeric_component(c: Seq<char>) -> bool {
    &&& c.len() > 0
    &&& forall|i: int| 0 <= i < c.len() ==> is_digit(#[trigger] c[i])
    &&& !(c.len() > 1 && c[0] == '0')
}

/// Index of the first dot at or after `from`, or the length.
pub open spec fn next_dot(s: Seq<char>, from: int) -> int {
    first_from(s, from, |c: char| c == '.')
}

/// Exactly three numeric components separated by dots: the parts before the
/// first dot, between the first two dots, and after the second dot are each
/// numeric (so no third dot exists).
pub open spec fn valid_base(base: Seq<char>) -> bool {
    let i = next_dot(base, 0);
    let j = next_dot(base, i + 1);
    &&& i < base.len()
    &&& j < base.len()
    &&& numeric_component(base.subrange(0, i))
    &&& numeric_component(base.subrange(i + 1, j))
    &&& numeric_component(base.subrange(j + 1, base.len() as int))
}

/// Index of the first `-`, or the length when there is none.
pub open spec fn stage_dash(s: Seq<char>) -> int {
    first_from(s, 0, |c: char| c == '-')
}

/// The suffix that spells a supported release stage.
pub open spec fn stage_suffix(stage: Seq<char>) -> Option<Seq<char>> {
    if stage == "alpha"@ {
        Some("a"@)
    } else if stage == "beta"@ {
        Some("b"@)
    } else if stage == "rc"@ {
        Some("rc"@)
    } else {
        None
    }
}

/// The product version of a Cargo version: the numeric base followed by `s`
/// for a stable release, `a`, `b` or `rc` for a pre-release.
pub open spec fn spec_product_version(v: Seq<char>) -> Result<Seq<char>, Seq<char>> {
    let d = stage_dash(v);
    let base = v.subrange(0, d);
    let suffix = if d == v.len() {
        Some("s"@)
    } else {
        stage_suffix(v.subrange(d + 1, v.len() as int))
    };
    match suffix {
        None => Err("unsupported product release stage"@),
        Some(suffix) => if valid_base(base) {
            Ok(base + suffix)
        } else {
            Err("product version must have three numeric components"@)
        },
    }
}

fn first_char_from(s: &str, from: usize, target: char) -> (index: usize)
    requires
        from <= s@.len(),
    ensures
        index as int == first_from(s@, from as int, |c: char| c == target),
        from <= index <= s@.len(),
{
    let ghost p = |c: char| c == target;
    let n = s.unicode_len();
    let mut i = from;
    while i < n && s.get_char(i) != target
        invariant
            n == s@.len(),
            from <= i <= n,
            p == (|c: char| c == target),
            forall|j: int| from <= j < i ==> !p(#[trigger] s@[j]),
        decreases n - i,
    {
        i += 1;
    }
    proof {
        lemma_first_from_unique(s@, from as int, i as int, p);
    }
    i
}

fn is_numeric_component(s: &str, from: usize, to: usize) -> (numeric: bool)
    requires
        from <= to <= s@.len(),
    ensures
        numeric == numeric_component(s@.subrange(from as int, to as int)),
{
    let ghost c = s@.subrange(from as int, to as int);
    if from == to {
        return false;
    }
    let mut i = from;
    while i < to
        invariant
            from <= i <= to,
            to <= s@.len(),
            c == s@.subrange(from as int, to as int),
            forall|j: int| 0 <= j < i - from ==> is_digit(#[trigger] c[j]),
        decreases to - i,
    {
        let ch = s.get_char(i);
        if !('0' <= ch && ch <= '9') {
            assert(!is_digit(c[i - from]));
            return false;
        }
        i += 1;
    }
    !(to - from > 1 && s.get_char(from) == '0')
}

/// Converts Cargo's SemVer spelling into the user-facing release-stage suffix.
pub fn product_version(cargo_version: &str) -> (version: Result<String, &'static str>)
    ensures
        match version {
            Ok(v) => spec_product_version(cargo_version@) == Ok::<Seq<char>, Seq<char>>(v@),
            Err(e) => spec_product_version(cargo_version@) == Err::<Seq<char>, Seq<char>>(e@),
        },
{
    let n = cargo_version.unicode_len();
    let d = first_char_from(cargo_version, 0, '-');
    let base = cargo_version.substring_char(0, d);
    let suffix: &str = if d == n {
        "s"
    } else {
        let stage = cargo_version.substring_char(d + 1, n);
        if str_equal(stage, "alpha") {
            "a"
        } else if str_equal(stage, "beta") {
            "b"
        } else if str_equal(stage, "rc") {
            "rc"
        } else {
            return Err("unsupported product release stage");
        }
    };
    let i = first_char_from(base, 0, '.');
    if i == d {
        return Err("product version must have three numeric components");
    }
    let j = first_char_from(base, i + 1, '.');
    if j == d {
        return Err("product version must have three numeric components");
    }
    if !is_numeric_component(base, 0, i) || !is_numeric_component(base, i + 1, j)
        || !is_numeric_component(base, j + 1, d) {
        return Err("product version must have three numeric components");
    }
    let mut version = base.to_owned();
    version.append(suffix);
    Ok(version)
}

/// The product version of a numeric base with the given suffix, or the
/// error for a malformed base.
pub open spec fn suffixed(base: Seq<char>, suffix: Seq<char>) -> Result<Seq<char>, Seq<char>> {
    if valid_base(base) {
        Ok(base + suffix)
    } else {
        Err("product version must have three numeric components"@)
    }
}

/// For any base without a dash, a stable release appends `s` and each
/// supported pre-release stage appends its letter(s): the stage decides the
/// suffix alone, and the base alone decides whether the version is valid.
pub proof fn law_stage_suffixes(base: Seq<char>)
    requires
        forall|i: int| 0 <= i < base.len() ==> base[i] != '-',
    ensures
        spec_product_version(base) == suffixed(base, "s"@),
        spec_product_version(base + "-alpha"@) == suffixed(base, "a"@),
        spec_product_version(base + "-beta"@) == suffixed(base, "b"@),
        spec_product_version(base + "-rc"@) == suffixed(base, "rc"@),
{
    let dash = |c: char| c == '-';
    lemma_first_from_unique(base, 0, base.len() as int, dash);
    assert(base.subrange(0, base.len() as int) =~= base);
    reveal_strlit("-alpha");
    reveal_strlit("-beta");
    reveal_strlit("-rc");
    reveal_strlit("alpha");
    reveal_strlit("beta");
    reveal_strlit("rc");
    lemma_stage(base, "-alpha"@);
    lemma_stage(base, "-beta"@);
    lemma_stage(base, "-rc"@);
    assert("-alpha"@.subrange(1, 6) =~= "alpha"@);
    assert("-beta"@.subrange(1, 5) =~= "beta"@);
    assert("-rc"@.subrange(1, 3) =~= "rc"@);
}

/// The dash of `base + stage` (with `stage` starting at its dash) splits it
/// back into `base` and the stage word.
proof fn lemma_stage(base: Seq<char>, stage: Seq<char>)
    requires
        stage.len() > 0,
        stage[0] == '-',
        forall|i: int| 0 <= i < base.len() ==> base[i] != '-',
    ensures
        stage_dash(base + stage) == base.len(),
        (base + stage).subrange(0, base.len() as int) =~= base,
        (base + stage).subrange(base.len() as int + 1, (base + stage).len() as int) =~= stage.subrange(
            1,
            stage.len() as int,
        ),
{
    let v = base + stage;
    let dash = |c: char| c == '-';
    assert forall|i: int| 0 <= i < base.len() implies !dash(#[trigger] v[i]) by {
        assert(v[i] == base[i]);
    }
    assert(v[base.len() as int] == stage[0]);
    lemma_first_from_unique(v, 0, base.len() as int, dash);
}

} // verus!
