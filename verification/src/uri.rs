//! The downstream target: a URI reduced to the parts the proxy reads,
//! a scheme and an authority, with parsing from a configuration string.

use vstd::prelude::*;

verus! {

/// A character allowed as the first of a URI scheme: an ASCII letter.
pub open spec fn scheme_first_char(c: char) -> bool {
    (0x41 <= c as u32 && c as u32 <= 0x5a) || (0x61 <= c as u32 && c as u32 <= 0x7a)
}

/// A character allowed in a URI scheme: a letter, a digit, '+', '-' or '.'.
pub open spec fn scheme_char(c: char) -> bool {
    scheme_first_char(c) || (0x30 <= c as u32 && c as u32 <= 0x39) || c == '+' || c == '-'
        || c == '.'
}

/// A non-empty scheme of scheme characters, starting with a letter.
/// Scheme characters exclude ':' and '/', which makes the split of a
/// target string at its "://" separator unambiguous.
pub open spec fn valid_scheme(s: Seq<char>) -> bool {
    &&& s.len() > 0
    &&& scheme_first_char(s[0])
    &&& forall|i: int| 0 <= i < s.len() ==> scheme_char(#[trigger] s[i])
}

/// A character allowed in an authority (host, optional port, optional
/// userinfo): anything but the delimiters '/', '?', '#' and a space.
pub open spec fn authority_char(c: char) -> bool {
    c != '/' && c != '?' && c != '#' && c != ' '
}

/// A non-empty authority of authority characters.
pub open spec fn valid_authority(s: Seq<char>) -> bool {
    &&& s.len() > 0
    &&& forall|i: int| 0 <= i < s.len() ==> authority_char(#[trigger] s[i])
}

/// A character allowed in a path-and-query: anything but a fragment
/// delimiter '#' and a space.
pub open spec fn pq_char(c: char) -> bool {
    c != '#' && c != ' '
}

/// A path-and-query that can stand in a URI: non-empty, starting with '/',
/// of path-and-query characters.
pub open spec fn valid_path_and_query(s: Seq<char>) -> bool {
    &&& s.len() > 0
    &&& s[0] == '/'
    &&& forall|i: int| 0 <= i < s.len() ==> pq_char(#[trigger] s[i])
}

/// Whether `s` is a valid path-and-query.
pub fn check_path_and_query(s: &str) -> (r: bool)
    ensures
        r == valid_path_and_query(s@),
{
    let n: usize = s.unicode_len();
    if n == 0 {
        return false;
    }
    if s.get_char(0) != '/' {
        return false;
    }
    let mut i: usize = 0;
    while i < n
        invariant
            i <= n,
            n == s@.len(),
            n > 0,
            s@[0] == '/',
            forall|k: int| 0 <= k < i ==> pq_char(#[trigger] s@[k]),
        decreases n - i,
    {
        let c = s.get_char(i);
        if c == '#' || c == ' ' {
            return false;
        }
        i += 1;
    }
    true
}

/// The "://" separator between a target's scheme and its authority.
pub open spec fn scheme_sep() -> Seq<char> {
    seq![':', '/', '/']
}

/// `s` splits at `i` (the index of the ':') into a valid scheme, the "://"
/// separator, and a valid authority.
pub open spec fn target_split_at(s: Seq<char>, i: int) -> bool {
    &&& 0 <= i
    &&& i + 3 <= s.len()
    &&& valid_scheme(s.subrange(0, i))
    &&& s.subrange(i, i + 3) == scheme_sep()
    &&& valid_authority(s.subrange(i + 3, s.len() as int))
}

/// `s` is a well-formed downstream target: scheme "://" authority.
pub open spec fn is_valid_target(s: Seq<char>) -> bool {
    exists|i: int| target_split_at(s, i)
}

/// The split of a valid target is unique: a scheme contains no ':', so the
/// separator can only stand at the first ':' of the string.
pub proof fn lemma_target_split_unique(s: Seq<char>, i: int, j: int)
    requires
        target_split_at(s, i),
        target_split_at(s, j),
    ensures
        i == j,
{
    if i < j {
        assert(s.subrange(0, j)[i] == s[i]);
        assert(s.subrange(i, i + 3)[0] == s[i]);
        assert(!scheme_char(':'));
    }
    if j < i {
        assert(s.subrange(0, i)[j] == s[j]);
        assert(s.subrange(j, j + 3)[0] == s[j]);
        assert(!scheme_char(':'));
    }
}

/// The fixed scheme-and-authority every inbound request is redirected to.
pub struct TargetUri {
    pub scheme: String,
    pub authority: String,
}

impl TargetUri {
    /// Both parts are well-formed, so the target can stand in a URI.
    pub open spec fn wf(&self) -> bool {
        valid_scheme(self.scheme@) && valid_authority(self.authority@)
    }

    /// A copy with the same parts.
    pub fn dup(&self) -> (r: TargetUri)
        ensures
            r == *self,
    {
        TargetUri { scheme: self.scheme.clone(), authority: self.authority.clone() }
    }
}

/// A target string that cannot be split into scheme "://" authority.
#[derive(Debug)]
pub enum UriError {
    MalformedTarget,
}

/// The index of the first ':' in `s`, if any.
fn find_colon(s: &str) -> (r: Option<usize>)
    ensures
        match r {
            Some(i) => {
                &&& i < s@.len()
                &&& s@[i as int] == ':'
                &&& forall|k: int| 0 <= k < i ==> s@[k] != ':'
            },
            None => forall|k: int| 0 <= k < s@.len() ==> s@[k] != ':',
        },
{
    let n: usize = s.unicode_len();
    let mut i: usize = 0;
    while i < n
        invariant
            i <= n,
            n == s@.len(),
            forall|k: int| 0 <= k < i ==> s@[k] != ':',
        decreases n - i,
    {
        if s.get_char(i) == ':' {
            return Some(i);
        }
        i += 1;
    }
    None
}

/// Whether every character of `s` before `end` is a scheme character, with
/// the first a letter: `s`'s prefix of length `end` is a valid scheme.
fn check_scheme_prefix(s: &str, end: usize) -> (r: bool)
    requires
        end <= s@.len(),
    ensures
        r == valid_scheme(s@.subrange(0, end as int)),
{
    let ghost pre = s@.subrange(0, end as int);
    if end == 0 {
        return false;
    }
    let first = s.get_char(0);
    let fu: u32 = first as u32;
    if !((0x41 <= fu && fu <= 0x5a) || (0x61 <= fu && fu <= 0x7a)) {
        assert(s@.subrange(0, end as int)[0] == s@[0]);
        return false;
    }
    let mut i: usize = 0;
    while i < end
        invariant
            i <= end,
            end <= s@.len(),
            end > 0,
            scheme_first_char(s@[0]),
            forall|k: int| 0 <= k < i ==> scheme_char(#[trigger] s@[k]),
        decreases end - i,
    {
        let c = s.get_char(i);
        let u: u32 = c as u32;
        let ok = (0x41 <= u && u <= 0x5a) || (0x61 <= u && u <= 0x7a) || (0x30 <= u && u
            <= 0x39) || c == '+' || c == '-' || c == '.';
        if !ok {
            assert(s@.subrange(0, end as int)[i as int] == s@[i as int]);
            return false;
        }
        i += 1;
    }
    assert(s@.subrange(0, end as int)[0] == s@[0]);
    assert forall|k: int| 0 <= k < pre.len() implies scheme_char(#[trigger] pre[k]) by {
        assert(s@.subrange(0, end as int)[k] == s@[k]);
    }
    true
}

/// Whether every character of `s` from `start` on is an authority character
/// and at least one follows: `s`'s suffix from `start` is a valid authority.
fn check_authority_suffix(s: &str, start: usize) -> (r: bool)
    requires
        start <= s@.len(),
    ensures
        r == valid_authority(s@.subrange(start as int, s@.len() as int)),
{
    let ghost suf = s@.subrange(start as int, s@.len() as int);
    let n: usize = s.unicode_len();
    if start == n {
        return false;
    }
    let mut i: usize = start;
    while i < n
        invariant
            start <= i <= n,
            n == s@.len(),
            forall|k: int| start <= k < i ==> authority_char(#[trigger] s@[k]),
        decreases n - i,
    {
        let c = s.get_char(i);
        if c == '/' || c == '?' || c == '#' || c == ' ' {
            assert(s@.subrange(start as int, s@.len() as int)[i - start] == s@[i as int]);
            return false;
        }
        i += 1;
    }
    assert forall|k: int| 0 <= k < suf.len() implies authority_char(#[trigger] suf[k]) by {
        assert(s@.subrange(start as int, s@.len() as int)[k] == s@[k + start]);
    }
    true
}

/// Parse a downstream-target string into its scheme and authority.
///
/// Succeeds exactly on the strings of the form scheme "://" authority; on
/// success the two parts concatenated with "://" give back the input.
pub fn parse_target(s: &str) -> (r: Result<TargetUri, UriError>)
    ensures
        match r {
            Ok(t) => {
                &&& t.wf()
                &&& s@ == t.scheme@ + scheme_sep() + t.authority@
                &&& is_valid_target(s@)
            },
            Err(_) => !is_valid_target(s@),
        },
{
    let n: usize = s.unicode_len();
    let colon = find_colon(s);
    match colon {
        None => {
            proof {
                if is_valid_target(s@) {
                    let i = choose|i: int| target_split_at(s@, i);
                    assert(s@.subrange(i, i + 3)[0] == s@[i]);
                }
            }
            Err(UriError::MalformedTarget)
        },
        Some(i) => {
            // Any split stands at a ':' preceded by scheme characters only,
            // so the first ':' is the only candidate.
            proof {
                if is_valid_target(s@) {
                    let j = choose|j: int| target_split_at(s@, j);
                    assert(s@.subrange(j, j + 3)[0] == s@[j]);
                    assert(s@[j] == ':');
                    if j < i as int {
                        assert(s@[j] != ':');
                    }
                    if (i as int) < j {
                        assert(s@.subrange(0, j)[i as int] == s@[i as int]);
                        assert(!scheme_char(':'));
                    }
                    assert(j == i as int);
                }
            }
            if !(i + 1 < n && i + 2 < n) {
                return Err(UriError::MalformedTarget);
            }
            if !(s.get_char(i + 1) == '/' && s.get_char(i + 2) == '/') {
                return Err(UriError::MalformedTarget);
            }
            assert(s@.subrange(i as int, i + 3) =~= scheme_sep());
            if !check_scheme_prefix(s, i) {
                return Err(UriError::MalformedTarget);
            }
            if !check_authority_suffix(s, i + 3) {
                return Err(UriError::MalformedTarget);
            }
            let scheme = s.substring_char(0, i);
            let authority = s.substring_char(i + 3, n);
            let t = TargetUri {
                scheme: scheme.to_owned(),
                authority: authority.to_owned(),
            };
            proof {
                assert(target_split_at(s@, i as int));
                assert(s@ =~= t.scheme@ + scheme_sep() + t.authority@);
            }
            Ok(t)
        },
    }
}

} // verus!
