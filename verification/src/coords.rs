use vstd::prelude::*;

use crate::errors::InstallError;

verus! {

/// A three-part library coordinate `group:id:version`, the group given in
/// dotted form.
#[derive(Debug)]
pub struct MavenCoordinate {
    pub group: String,
    pub id: String,
    pub version: String,
}

/// No `:` occurs in the sequence.
pub open spec fn spec_colon_free(s: Seq<char>) -> bool {
    forall|i: int| 0 <= i < s.len() ==> s[i] != ':'
}

/// At least two `:` occur in the sequence: the shape a coordinate needs.
pub open spec fn spec_has_two_colons(s: Seq<char>) -> bool {
    exists|i: int, j: int|
        0 <= i < j < s.len() && #[trigger] s[i] == ':' && #[trigger] s[j] == ':'
}

/// `g`, `id` and `v` are the first three `:`-separated segments of `name`:
/// they are colon-free, concatenate with `:` to a prefix of `name`, and the
/// prefix ends at the end of `name` or right before a further `:`.
pub open spec fn spec_coordinate_split(
    name: Seq<char>,
    g: Seq<char>,
    id: Seq<char>,
    v: Seq<char>,
) -> bool {
    let l = g.len() + 1 + id.len() + 1 + v.len();
    &&& spec_colon_free(g)
    &&& spec_colon_free(id)
    &&& spec_colon_free(v)
    &&& l <= name.len()
    &&& name.subrange(0, l as int) == g + seq![':'] + id + seq![':'] + v
    &&& (l == name.len() || name[l as int] == ':')
}

/// Parse a library coordinate `group:id:version`, taking the first three
/// `:`-separated segments and ignoring any further ones.
pub fn parse_coordinate(name: &String) -> (r: Result<MavenCoordinate, InstallError>)
    ensures
        r is Ok <==> spec_has_two_colons(name@),
        r matches Ok(c) ==> spec_coordinate_split(name@, c.group@, c.id@, c.version@),
        r matches Err(e) ==> e == InstallError::ParseError,
{
    let ns = name.as_str();
    let n = ns.unicode_len();

    let mut i1: usize = 0;
    while i1 < n && ns.get_char(i1) != ':'
        invariant
            0 <= i1 <= n,
            n == name@.len(),
            ns@ == name@,
            forall|m: int| 0 <= m < i1 ==> name@[m] != ':',
        decreases n - i1,
    {
        i1 = i1 + 1;
    }
    if i1 == n {
        proof {
            assert(forall|m: int| 0 <= m < name@.len() ==> name@[m] != ':');
            assert(!spec_has_two_colons(name@));
        }
        return Err(InstallError::ParseError);
    }

    let mut i2: usize = i1 + 1;
    while i2 < n && ns.get_char(i2) != ':'
        invariant
            i1 < i2 <= n,
            n == name@.len(),
            ns@ == name@,
            name@[i1 as int] == ':',
            forall|m: int| 0 <= m < i1 ==> name@[m] != ':',
            forall|m: int| i1 < m < i2 ==> name@[m] != ':',
        decreases n - i2,
    {
        i2 = i2 + 1;
    }
    if i2 == n {
        proof {
            assert forall|i: int, j: int| 0 <= i < j < name@.len() implies !(name@[i] == ':'
                && name@[j] == ':') by {
                if name@[i] == ':' && name@[j] == ':' {
                    assert(i == i1 && j == i1);
                }
            }
            assert(!spec_has_two_colons(name@));
        }
        return Err(InstallError::ParseError);
    }

    let mut i3: usize = i2 + 1;
    while i3 < n && ns.get_char(i3) != ':'
        invariant
            i2 < i3 <= n,
            n == name@.len(),
            ns@ == name@,
            forall|m: int| i2 < m < i3 ==> name@[m] != ':',
        decreases n - i3,
    {
        i3 = i3 + 1;
    }

    let c = MavenCoordinate {
        group: String::from_str(ns.substring_char(0, i1)),
        id: String::from_str(ns.substring_char(i1 + 1, i2)),
        version: String::from_str(ns.substring_char(i2 + 1, i3)),
    };
    proof {
        assert(name@[i1 as int] == ':');
        assert(name@[i2 as int] == ':');
        assert(spec_has_two_colons(name@));
        assert(name@.subrange(0, i3 as int) =~= c.group@ + seq![':'] + c.id@ + seq![':']
            + c.version@);
        assert(spec_coordinate_split(name@, c.group@, c.id@, c.version@));
    }
    Ok(c)
}

/// A dot becomes a path separator; any other character stays.
pub open spec fn spec_dot_to_slash(c: char) -> char {
    if c == '.' {
        '/'
    } else {
        c
    }
}

/// The first `i` characters of `g`, each dot turned into a slash.
pub open spec fn spec_slashed_prefix(g: Seq<char>, i: int) -> Seq<char> {
    g.subrange(0, i).map_values(|c: char| spec_dot_to_slash(c))
}

/// The slash path of a dotted group: every `.` becomes `/`, with a trailing
/// `/` closing the last segment.
pub open spec fn spec_dots_to_slashes(g: Seq<char>) -> Seq<char> {
    spec_slashed_prefix(g, g.len() as int) + "/"@
}

/// Turn a dotted group into its slash path, exactly as `spec_dots_to_slashes`
/// says.
pub fn dots_to_slashes(g: &String) -> (r: String)
    ensures
        r@ == spec_dots_to_slashes(g@),
{
    let gs = g.as_str();
    let n = gs.unicode_len();
    let mut r = String::new();
    let mut i: usize = 0;
    while i < n
        invariant
            0 <= i <= n,
            n == g@.len(),
            gs@ == g@,
            r@ == spec_slashed_prefix(g@, i as int),
        decreases n - i,
    {
        if gs.get_char(i) == '.' {
            r.append("/");
            proof {
                reveal_strlit("/");
            }
        } else {
            r.append(gs.substring_char(i, i + 1));
        }
        proof {
            assert(spec_slashed_prefix(g@, i + 1) =~= spec_slashed_prefix(g@, i as int).push(
                spec_dot_to_slash(g@[i as int]),
            ));
            assert(gs@.subrange(i as int, i + 1 as int) =~= seq![g@[i as int]]);
            assert(r@ =~= spec_slashed_prefix(g@, i + 1));
        }
        i = i + 1;
    }
    r.append("/");
    r
}

} // verus!
