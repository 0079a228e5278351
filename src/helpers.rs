//! Resolution of user-supplied repository URLs and of textual identifiers.
use vstd::prelude::*;

verus! {

/// A character allowed in an owner or repository segment: an ASCII letter,
/// an ASCII digit or a hyphen.
pub open spec fn is_name_char(c: char) -> bool {
    ('a' <= c && c <= 'z') || ('A' <= c && c <= 'Z') || ('0' <= c && c <= '9') || c == '-'
}

/// `p` occurs in `s` at position `i`.
pub open spec fn has_at(s: Seq<char>, i: int, p: Seq<char>) -> bool {
    0 <= i && i + p.len() <= s.len() && s.subrange(i, i + p.len()) == p
}

/// The number of name characters in `s` from position `i` on, up to the first
/// character that is not one.
pub open spec fn name_run(s: Seq<char>, i: int) -> nat
    decreases s.len() - i,
{
    if 0 <= i < s.len() && is_name_char(s[i]) {
        1 + name_run(s, i + 1)
    } else {
        0
    }
}

/// Length of the optional scheme, `https://` or `http://`, at the start of `s`.
pub open spec fn scheme_len(s: Seq<char>) -> int {
    if has_at(s, 0, "https://"@) {
        "https://"@.len() as int
    } else if has_at(s, 0, "http://"@) {
        "http://"@.len() as int
    } else {
        0
    }
}

/// Length of the optional `www.` at position `i`.
pub open spec fn www_len(s: Seq<char>, i: int) -> int {
    if has_at(s, i, "www."@) {
        "www."@.len() as int
    } else {
        0
    }
}

/// Where the owner segment starts: after the optional scheme, the optional
/// `www.` and the host `github.com/`.
pub open spec fn host_end(s: Seq<char>) -> Option<int> {
    let i = scheme_len(s);
    let j = i + www_len(s, i);
    if has_at(s, j, "github.com/"@) {
        Some(j + "github.com/"@.len())
    } else {
        None
    }
}

/// The canonical `owner/name` of a repository URL: the text must start with
/// `(http(s)?://)?(www\.)?github\.com/`, followed by a non-empty owner segment, a slash and a
/// non-empty repository segment, each made of name characters. The repository
/// segment is the longest such run; whatever follows it is ignored.
pub open spec fn repo_name_of(url: Seq<char>) -> Option<Seq<char>> {
    match host_end(url) {
        None => None,
        Some(k) => {
            let slash = k + name_run(url, k);
            let b = name_run(url, slash + 1);
            if slash > k && slash < url.len() && url[slash] == '/' && b > 0 {
                Some(url.subrange(k, slash) + seq!['/'] + url.subrange(slash + 1, slash + 1 + b))
            } else {
                None
            }
        },
    }
}

/// The result of parsing `s` as a UUID, as a 128-bit big-endian number.
pub uninterp spec fn uuid_of(s: Seq<char>) -> Option<u128>;

/// Relies on `uuid::Uuid::parse_str` (and `Uuid::as_u128`): the parse depends
/// on the text alone.
#[verifier::external_body]
fn parse_uuid(s: &str) -> (r: Option<u128>)
    ensures
        r == uuid_of(s@),
{
    uuid::Uuid::parse_str(s).ok().map(|u| u.as_u128())
}

fn occurs_at(s: &str, i: usize, p: &str) -> (r: bool)
    requires
        i <= s@.len(),
    ensures
        r == has_at(s@, i as int, p@),
{
    let n = s.unicode_len();
    let m = p.unicode_len();
    if m > n - i {
        return false;
    }
    let mut j: usize = 0;
    while j < m
        invariant
            n == s@.len(),
            m == p@.len(),
            i + m <= n,
            j <= m,
            forall|k: int| 0 <= k < j ==> s@[i + k] == p@[k],
        decreases m - j,
    {
        if s.get_char(i + j) != p.get_char(j) {
            assert(s@.subrange(i as int, i + m)[j as int] != p@[j as int]);
            return false;
        }
        j += 1;
    }
    assert(s@.subrange(i as int, i + m) =~= p@);
    true
}

fn is_name_character(c: char) -> (r: bool)
    ensures
        r == is_name_char(c),
{
    ('a' <= c && c <= 'z') || ('A' <= c && c <= 'Z') || ('0' <= c && c <= '9') || c == '-'
}

fn name_run_len(s: &str, i: usize) -> (r: usize)
    requires
        i <= s@.len(),
    ensures
        r == name_run(s@, i as int),
        i + r <= s@.len(),
{
    let n = s.unicode_len();
    let mut j = i;
    while j < n && is_name_character(s.get_char(j))
        invariant
            n == s@.len(),
            i <= j <= n,
            name_run(s@, i as int) == (j - i) + name_run(s@, j as int),
        decreases n - j,
    {
        j += 1;
    }
    j - i
}

/// The canonical `owner/name` identifier of a hosted repository URL, or `None`
/// where the text does not refer to one. Only name characters and a single
/// slash can reach the result, so it is safe to use in a clone URL or a path.
pub fn name_of_git_repository(url: &String) -> (r: Option<String>)
    ensures
        r matches Some(n) ==> repo_name_of(url@) == Some(n@),
        r is None ==> repo_name_of(url@) is None,
        r matches Some(n) ==> forall|i: int|
            0 <= i < n@.len() ==> is_name_char(#[trigger] n@[i]) || n@[i] == '/',
{
    let s = url.as_str();
    let n = s.unicode_len();
    let i: usize = if occurs_at(s, 0, "https://") {
        "https://".unicode_len()
    } else if occurs_at(s, 0, "http://") {
        "http://".unicode_len()
    } else {
        0
    };
    assert(i == scheme_len(url@));
    let j: usize = if occurs_at(s, i, "www.") {
        i + "www.".unicode_len()
    } else {
        i
    };
    assert(j == i + www_len(url@, i as int));
    if !occurs_at(s, j, "github.com/") {
        return None;
    }
    let k = j + "github.com/".unicode_len();
    assert(host_end(url@) == Some(k as int));
    let slash = k + name_run_len(s, k);
    if slash == k || slash >= n || s.get_char(slash) != '/' {
        return None;
    }
    let b = name_run_len(s, slash + 1);
    if b == 0 {
        return None;
    }
    let owner = String::from_str(s.substring_char(k, slash));
    let with_slash = owner.concat("/");
    let name = with_slash.concat(s.substring_char(slash + 1, slash + 1 + b));
    proof {
        reveal_strlit("/");
        lemma_run_chars(url@, k as int);
        lemma_run_chars(url@, slash + 1);
        assert(name@ =~= url@.subrange(k as int, slash as int) + seq!['/'] + url@.subrange(
            slash + 1,
            slash + 1 + b,
        ));
    }
    Some(name)
}

/// Every character of a run counted by `name_run` is a name character.
proof fn lemma_run_chars(s: Seq<char>, i: int)
    requires
        0 <= i <= s.len(),
    ensures
        i + name_run(s, i) <= s.len(),
        forall|k: int| i <= k < i + name_run(s, i) ==> is_name_char(#[trigger] s[k]),
    decreases s.len() - i,
{
    if i < s.len() && is_name_char(s[i]) {
        lemma_run_chars(s, i + 1);
    }
}

/// The parsed UUID, or the nil UUID (zero) where there is none.
pub fn uuid_or_nil(parsed: Option<u128>) -> (r: u128)
    ensures
        r == match parsed {
            Some(v) => v,
            None => 0,
        },
{
    match parsed {
        Some(v) => v,
        None => 0,
    }
}

/// The UUID written in `id`, or the nil UUID (zero) where `id` is not one.
pub fn uuid_from_string(id: &String) -> (r: u128)
    ensures
        r == match uuid_of(id@) {
            Some(v) => v,
            None => 0,
        },
{
    uuid_or_nil(parse_uuid(id.as_str()))
}


/// The decimal digit of a value below ten.
pub open spec fn decimal_digit(n: int) -> char {
    "0123456789"@[n]
}

/// Append the decimal digit of `d` to `out`.
pub(crate) fn push_digit(out: &mut String, d: i32)
    requires
        0 <= d < 10,
    ensures
        final(out)@ == old(out)@.push(decimal_digit(d as int)),
{
    let digits = "0123456789";
    proof {
        reveal_strlit("0123456789");
    }
    let piece = digits.substring_char(d as usize, d as usize + 1);
    out.append(piece);
    proof {
        assert(piece@ =~= seq![decimal_digit(d as int)]);
        assert(final(out)@ =~= old(out)@.push(decimal_digit(d as int)));
    }
}

/// The decimal numeral of `n`, without leading zeros.
pub open spec fn decimal_of(n: nat) -> Seq<char>
    decreases n,
{
    if n < 10 {
        seq![decimal_digit(n as int)]
    } else {
        decimal_of(n / 10).push(decimal_digit((n % 10) as int))
    }
}

/// Append the decimal numeral of `n` to `out`.
pub(crate) fn push_decimal(out: &mut String, n: u16)
    ensures
        final(out)@ == old(out)@ + decimal_of(n as nat),
    decreases n,
{
    if n >= 10 {
        push_decimal(out, n / 10);
    }
    push_digit(out, (n % 10) as i32);
    assert(out@ =~= old(out)@ + decimal_of(n as nat));
}

} // verus!
