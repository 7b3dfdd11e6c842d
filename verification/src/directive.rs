//! Building filter-directive strings from package and binary identifiers.
//!
//! A directive string names a component and a verbosity level, such as
//! `my_crate=info`. Component names in a directive must be identifier-safe,
//! so hyphens in package or binary names are rewritten to underscores.

use vstd::prelude::*;

verus! {

/// One character of an identifier, made identifier-safe: `-` becomes `_`,
/// every other character is kept.
pub open spec fn norm_char(c: char) -> char {
    if c == '-' {
        '_'
    } else {
        c
    }
}

/// An identifier made identifier-safe for use in a directive: every `-`
/// replaced by `_`.
pub open spec fn normalized(s: Seq<char>) -> Seq<char> {
    s.map_values(|c: char| norm_char(c))
}

/// The directive that [`package_directive`] produces: a single
/// `name=level` clause when the normalized package and binary names agree,
/// and two comma-separated clauses (package first) otherwise.
pub open spec fn directive_of(level: Seq<char>, package: Seq<char>, binary: Seq<char>) -> Seq<
    char,
> {
    let p = normalized(package);
    let b = normalized(binary);
    if p == b {
        p + "="@ + level
    } else {
        p + "="@ + level + ","@ + b + "="@ + level
    }
}

/// Replaces every `-` with `_`, keeping all other characters.
pub fn normalize_ident(s: &str) -> (r: String)
    ensures
        r@ == normalized(s@),
{
    let n = s.unicode_len();
    let mut r = String::new();
    let mut i: usize = 0;
    while i < n
        invariant
            n == s@.len(),
            i <= n,
            r@ == normalized(s@.subrange(0, i as int)),
        decreases n - i,
    {
        let c = s.get_char(i);
        if c == '-' {
            r.append("_");
            proof {
                reveal_strlit("_");
            }
        } else {
            let piece = s.substring_char(i, i + 1);
            r.append(piece);
        }
        proof {
            assert(normalized(s@.subrange(0, i + 1 as int)) =~= normalized(
                s@.subrange(0, i as int),
            ).push(norm_char(s@[i as int])));
            assert(r@ =~= normalized(s@.subrange(0, i + 1 as int)));
        }
        i = i + 1;
    }
    proof {
        assert(s@.subrange(0, n as int) =~= s@);
    }
    r
}

/// Builds the directive string that enables logging at `level` for both the
/// package and the binary namespace of one compiled artifact.
///
/// Hyphens in `package` and `binary` are replaced by underscores; if the two
/// normalized names agree the directive holds a single clause, otherwise one
/// clause for each name.
pub fn package_directive(level: &str, package: &str, binary: &str) -> (r: String)
    ensures
        r@ == directive_of(level@, package@, binary@),
{
    let p = normalize_ident(package);
    let b = normalize_ident(binary);
    if p == b {
        p.concat("=").concat(level)
    } else {
        p.concat("=").concat(level).concat(",").concat(b.as_str()).concat("=").concat(level)
    }
}

} // verus!
