use vstd::prelude::*;

verus! {

/// The deployment platforms that configuration can be generated for.
#[derive(Clone, Copy, Debug, PartialEq, Eq, Structural)]
pub enum Platform {
    Cloudflare,
    Aws,
}

/// Why a base identifier could not be turned into a platform-conformant name.
#[derive(Clone, Copy, Debug, PartialEq, Eq, Structural)]
pub enum NameError {
    /// Nothing usable was left after normalization.
    Empty,
    /// What was left is shorter than the platform allows.
    TooShort,
}

/// Shortest resource name accepted (bucket names on both platforms).
pub const MIN_NAME_LEN: usize = 3;

/// Longest resource name accepted (bucket names on both platforms).
pub const MAX_NAME_LEN: usize = 63;

pub open spec fn is_lower(c: char) -> bool {
    'a' <= c && c <= 'z'
}

pub open spec fn is_upper(c: char) -> bool {
    'A' <= c && c <= 'Z'
}

pub open spec fn is_digit(c: char) -> bool {
    '0' <= c && c <= '9'
}

pub open spec fn to_lower(c: char) -> char {
    ((c as u32) + 32) as char
}

/// Characters a derived name may hold: lowercase letters, digits and hyphens.
pub open spec fn is_name_char(c: char) -> bool {
    is_lower(c) || is_digit(c) || c == '-'
}

/// Whether a derived name may begin with `c` on the platform: a letter or a digit
/// on Cloudflare, a letter on AWS (stack and function names).
pub open spec fn can_start(c: char, p: Platform) -> bool {
    match p {
        Platform::Cloudflare => is_lower(c) || is_digit(c),
        Platform::Aws => is_lower(c),
    }
}

/// What one input character becomes: kept, lowercased, turned into a hyphen
/// (for separators) or dropped.
pub open spec fn name_char(c: char) -> Option<char> {
    if is_lower(c) || is_digit(c) || c == '-' {
        Some(c)
    } else if is_upper(c) {
        Some(to_lower(c))
    } else if c == '_' || c == ' ' || c == '.' {
        Some('-')
    } else {
        None
    }
}

/// The input with every character mapped by `name_char`.
pub open spec fn normalized(s: Seq<char>) -> Seq<char>
    decreases s.len(),
{
    if s.len() == 0 {
        Seq::empty()
    } else {
        let prev = normalized(s.drop_last());
        match name_char(s.last()) {
            Some(c) => prev.push(c),
            None => prev,
        }
    }
}

/// First index at or after `i` whose character may begin a name.
pub open spec fn start_index(s: Seq<char>, p: Platform, i: int) -> int
    decreases s.len() - i,
{
    if 0 <= i < s.len() && !can_start(s[i], p) {
        start_index(s, p, i + 1)
    } else {
        i
    }
}

/// End of the range `lo..e` once trailing hyphens are dropped.
pub open spec fn end_index(s: Seq<char>, lo: int, e: int) -> int
    decreases e - lo,
{
    if lo < e && s[e - 1] == '-' {
        end_index(s, lo, e - 1)
    } else {
        e
    }
}

/// The candidate name: normalized, leading characters that cannot begin a name
/// dropped, cut to the longest length, trailing hyphens dropped.
pub open spec fn candidate(base: Seq<char>, p: Platform) -> Seq<char> {
    let n = normalized(base);
    let b = start_index(n, p, 0);
    let e0 = if b + MAX_NAME_LEN < n.len() { b + MAX_NAME_LEN } else { n.len() as int };
    n.subrange(b, end_index(n, b, e0))
}

/// The name derived from `base` for platform `p`.
pub open spec fn derived(base: Seq<char>, p: Platform) -> Result<Seq<char>, NameError> {
    let c = candidate(base, p);
    if c.len() == 0 {
        Err(NameError::Empty)
    } else if c.len() < MIN_NAME_LEN {
        Err(NameError::TooShort)
    } else {
        Ok(c)
    }
}

/// The platform's naming constraints: length, character set, first and last character.
pub open spec fn conforms(name: Seq<char>, p: Platform) -> bool {
    &&& MIN_NAME_LEN <= name.len() <= MAX_NAME_LEN
    &&& forall|i: int| 0 <= i < name.len() ==> #[trigger] is_name_char(name[i])
    &&& can_start(name[0], p)
    &&& name.last() != '-'
}

proof fn lemma_normalized_chars(s: Seq<char>)
    ensures
        forall|i: int| 0 <= i < normalized(s).len() ==> #[trigger] is_name_char(normalized(s)[i]),
    decreases s.len(),
{
    if s.len() > 0 {
        lemma_normalized_chars(s.drop_last());
        let prev = normalized(s.drop_last());
        let c = s.last();
        if is_upper(c) {
            assert(is_lower(to_lower(c)));
        }
        assert forall|i: int| 0 <= i < normalized(s).len() implies #[trigger] is_name_char(
            normalized(s)[i],
        ) by {
            if i < prev.len() {
                assert(normalized(s)[i] == prev[i]);
            }
        }
    }
}

proof fn lemma_start_index(s: Seq<char>, p: Platform, i: int)
    requires
        0 <= i <= s.len(),
    ensures
        i <= start_index(s, p, i) <= s.len(),
        start_index(s, p, i) < s.len() ==> can_start(s[start_index(s, p, i)], p),
    decreases s.len() - i,
{
    if i < s.len() && !can_start(s[i], p) {
        lemma_start_index(s, p, i + 1);
    }
}

proof fn lemma_end_index(s: Seq<char>, lo: int, e: int)
    requires
        0 <= lo <= e <= s.len(),
    ensures
        lo <= end_index(s, lo, e) <= e,
        lo < end_index(s, lo, e) ==> s[end_index(s, lo, e) - 1] != '-',
    decreases e - lo,
{
    if lo < e && s[e - 1] == '-' {
        lemma_end_index(s, lo, e - 1);
    }
}

/// Every name the deriver accepts meets the platform's naming constraints.
pub proof fn derived_name_conforms(base: Seq<char>, p: Platform)
    ensures
        derived(base, p) matches Ok(name) ==> conforms(name, p),
{
    let n = normalized(base);
    lemma_normalized_chars(base);
    let b = start_index(n, p, 0);
    lemma_start_index(n, p, 0);
    let e0 = if b + MAX_NAME_LEN < n.len() { b + MAX_NAME_LEN } else { n.len() as int };
    lemma_end_index(n, b, e0);
    let e = end_index(n, b, e0);
    let c = n.subrange(b, e);
    assert(c == candidate(base, p));
    if c.len() > 0 {
        assert(c[0] == n[b]);
        assert(c.last() == n[e - 1]);
        assert forall|i: int| 0 <= i < c.len() implies #[trigger] is_name_char(c[i]) by {
            assert(c[i] == n[b + i]);
        }
    }
}

proof fn lemma_normalized_hyphens(s: Seq<char>)
    requires
        forall|i: int| 0 <= i < s.len() ==> (#[trigger] name_char(s[i]) matches None || name_char(s[i]) == Some('-')),
    ensures
        forall|i: int| 0 <= i < normalized(s).len() ==> #[trigger] normalized(s)[i] == '-',
    decreases s.len(),
{
    if s.len() > 0 {
        assert(name_char(s[s.len() - 1]) matches None || name_char(s[s.len() - 1]) == Some('-'));
        lemma_normalized_hyphens(s.drop_last());
        let prev = normalized(s.drop_last());
        assert forall|i: int| 0 <= i < normalized(s).len() implies #[trigger] normalized(s)[i]
            == '-' by {
            if i < prev.len() {
                assert(normalized(s)[i] == prev[i]);
            }
        }
    }
}

/// A base name that is empty, or holds only characters that are dropped or become
/// hyphens, gives `NameError::Empty` on every platform, never a name.
pub proof fn no_name_from_invalid_base(base: Seq<char>, p: Platform)
    requires
        forall|i: int| 0 <= i < base.len() ==> (#[trigger] name_char(base[i]) matches None || name_char(base[i]) == Some('-')),
    ensures
        derived(base, p) == Err::<Seq<char>, NameError>(NameError::Empty),
{
    let n = normalized(base);
    lemma_normalized_hyphens(base);
    lemma_start_index(n, p, 0);
    let b = start_index(n, p, 0);
    if b < n.len() {
        assert(n[b] == '-');
    }
}

fn map_char(c: char) -> (r: Option<char>)
    ensures
        r == name_char(c),
{
    if ('a' <= c && c <= 'z') || ('0' <= c && c <= '9') || c == '-' {
        Some(c)
    } else if 'A' <= c && c <= 'Z' {
        Some(((c as u8) + 32) as char)
    } else if c == '_' || c == ' ' || c == '.' {
        Some('-')
    } else {
        None
    }
}

fn can_start_exec(c: char, p: Platform) -> (r: bool)
    ensures
        r == can_start(c, p),
{
    match p {
        Platform::Cloudflare => ('a' <= c && c <= 'z') || ('0' <= c && c <= '9'),
        Platform::Aws => 'a' <= c && c <= 'z',
    }
}

/// Relies on String::push: appends one character.
#[verifier::external_body]
fn push_char(s: &mut String, c: char)
    ensures
        final(s)@ == old(s)@.push(c),
{
    s.push(c)
}

/// Normalizes `base` and cuts it to a platform-conformant name, or says why none exists.
pub fn derive_name(base: &str, p: Platform) -> (r: Result<String, NameError>)
    ensures
        match r {
            Ok(s) => derived(base@, p) == Ok::<Seq<char>, NameError>(s@),
            Err(e) => derived(base@, p) == Err::<Seq<char>, NameError>(e),
        },
        r matches Ok(s) ==> conforms(s@, p),
{
    let len = base.unicode_len();
    let mut n: Vec<char> = Vec::new();
    let mut i: usize = 0;
    while i < len
        invariant
            len == base@.len(),
            i <= len,
            n@ == normalized(base@.subrange(0, i as int)),
        decreases len - i,
    {
        let c = base.get_char(i);
        assert(base@.subrange(0, i + 1).drop_last() == base@.subrange(0, i as int));
        match map_char(c) {
            Some(m) => n.push(m),
            None => {},
        }
        i = i + 1;
    }
    assert(base@.subrange(0, len as int) == base@);
    let ghost ns = n@;
    let nl = n.len();
    let mut b: usize = 0;
    while b < nl && !can_start_exec(n[b], p)
        invariant
            nl == ns.len(),
            n@ == ns,
            b <= nl,
            start_index(ns, p, 0) == start_index(ns, p, b as int),
        decreases nl - b,
    {
        b = b + 1;
    }
    let mut e: usize = if nl - b > MAX_NAME_LEN { b + MAX_NAME_LEN } else { nl };
    let ghost e0 = e as int;
    while e > b && n[e - 1] == '-'
        invariant
            nl == ns.len(),
            n@ == ns,
            b <= e <= nl,
            end_index(ns, b as int, e0) == end_index(ns, b as int, e as int),
        decreases e - b,
    {
        e = e - 1;
    }
    proof {
        derived_name_conforms(base@, p);
    }
    if e == b {
        return Err(NameError::Empty);
    }
    if e - b < MIN_NAME_LEN {
        return Err(NameError::TooShort);
    }
    let mut out = String::new();
    let mut k: usize = b;
    while k < e
        invariant
            n@ == ns,
            b <= k <= e <= nl,
            nl == ns.len(),
            out@ == ns.subrange(b as int, k as int),
        decreases e - k,
    {
        assert(ns.subrange(b as int, k + 1) == ns.subrange(b as int, k as int).push(ns[k as int]));
        push_char(&mut out, n[k]);
        k = k + 1;
    }
    Ok(out)
}

} // verus!
