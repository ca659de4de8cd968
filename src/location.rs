use vstd::prelude::*;
use crate::config::opt_view;

verus! {

/// Why a storage location could not be resolved.
#[derive(Debug, Clone, Copy, PartialEq, Eq)]
pub enum LocationError {
    /// An `s3://` location without a `/` after the bucket.
    MissingKey,
    /// An `s3://` location whose bucket or key is empty.
    MissingBucketOrKey,
    /// A plain key, and no default bucket to put it in.
    NoDefaultBucket,
    /// An output location whose key is empty once trailing slashes go.
    EmptyOutputPath,
}

/// A character with the Unicode `White_Space` property, as
/// `char::is_whitespace` tests it.
pub open spec fn is_white_space(c: char) -> bool {
    ('\u{9}' <= c && c <= '\u{d}') || c == ' ' || c == '\u{85}' || c == '\u{a0}' || c
        == '\u{1680}' || ('\u{2000}' <= c && c <= '\u{200a}') || c == '\u{2028}' || c
        == '\u{2029}' || c == '\u{202f}' || c == '\u{205f}' || c == '\u{3000}'
}

/// `s` without its leading white space.
pub open spec fn trim_start_white(s: Seq<char>) -> Seq<char>
    decreases s.len(),
{
    if s.len() > 0 && is_white_space(s[0]) {
        trim_start_white(s.drop_first())
    } else {
        s
    }
}

/// `s` without its trailing white space.
pub open spec fn trim_end_white(s: Seq<char>) -> Seq<char>
    decreases s.len(),
{
    if s.len() > 0 && is_white_space(s.last()) {
        trim_end_white(s.drop_last())
    } else {
        s
    }
}

/// `s` without its leading and trailing white space.
pub open spec fn trim_of(s: Seq<char>) -> Seq<char> {
    trim_end_white(trim_start_white(s))
}

/// Relies on `str::trim`: the text without the leading and trailing
/// characters that have the Unicode `White_Space` property.
#[verifier::external_body]
fn trim<'a>(s: &'a str) -> (r: &'a str)
    ensures
        r@ == trim_of(s@),
{
    s.trim()
}

/// The scheme of a location that names its own bucket.
pub open spec fn s3_scheme() -> Seq<char> {
    "s3://"@
}

/// `t` starts with the `s3://` scheme.
pub open spec fn has_scheme(t: Seq<char>) -> bool {
    t.len() >= 5 && t.take(5) == s3_scheme()
}

/// `i` is the place of the first `/` in `s`.
pub open spec fn is_first_slash(s: Seq<char>, i: int) -> bool {
    0 <= i < s.len() && s[i] == '/' && forall|j: int| 0 <= j < i ==> s[j] != '/'
}

/// The (bucket, key) that a trimmed location stands for.
pub open spec fn location_of(t: Seq<char>, default_bucket: Option<Seq<char>>) -> Result<
    (Seq<char>, Seq<char>),
    LocationError,
> {
    if has_scheme(t) {
        let rest = t.skip(5);
        if !rest.contains('/') {
            Err(LocationError::MissingKey)
        } else {
            let i = choose|i: int| is_first_slash(rest, i);
            let bucket = rest.take(i);
            let key = rest.skip(i + 1);
            if bucket.len() == 0 || key.len() == 0 {
                Err(LocationError::MissingBucketOrKey)
            } else {
                Ok((bucket, key))
            }
        }
    } else {
        match default_bucket {
            Some(b) => Ok((b, t)),
            None => Err(LocationError::NoDefaultBucket),
        }
    }
}

/// The text of a resolved location.
pub open spec fn pair_view(r: Result<(String, String), LocationError>) -> Result<
    (Seq<char>, Seq<char>),
    LocationError,
> {
    match r {
        Ok((a, b)) => Ok((a@, b@)),
        Err(e) => Err(e),
    }
}

/// `s` without the slashes at its end.
pub open spec fn strip_trailing_slashes(s: Seq<char>) -> Seq<char>
    decreases s.len(),
{
    if s.len() > 0 && s.last() == '/' {
        strip_trailing_slashes(s.drop_last())
    } else {
        s
    }
}

/// The (bucket, prefix) of an output location, from its (bucket, key).
pub open spec fn prefix_of(loc: Result<(Seq<char>, Seq<char>), LocationError>) -> Result<
    (Seq<char>, Seq<char>),
    LocationError,
> {
    match loc {
        Ok((b, k)) => if strip_trailing_slashes(k).len() == 0 {
            Err(LocationError::EmptyOutputPath)
        } else {
            Ok((b, strip_trailing_slashes(k)))
        },
        Err(e) => Err(e),
    }
}

proof fn lemma_first_slash_unique(s: Seq<char>, i: int, j: int)
    requires
        is_first_slash(s, i),
        is_first_slash(s, j),
    ensures
        i == j,
{
}

/// Resolves a location that has already been trimmed: `s3://bucket/key`
/// names its bucket, anything else is a key in `default_bucket`.
pub fn parse_trimmed_location(trimmed: &str, default_bucket: Option<String>) -> (r: Result<
    (String, String),
    LocationError,
>)
    ensures
        pair_view(r) == location_of(trimmed@, opt_view(default_bucket)),
{
    let n = trimmed.unicode_len();
    let scheme = "s3://";
    proof {
        reveal_strlit("s3://");
    }
    let mut named = n >= 5;
    let mut i: usize = 0;
    while named && i < 5
        invariant
            n == trimmed@.len(),
            i <= 5,
            named ==> n >= 5,
            named <==> (n >= 5 && forall|j: int| 0 <= j < i ==> trimmed@[j] == scheme@[j]),
            scheme@ == s3_scheme(),
            s3_scheme().len() == 5,
        decreases 5 - i,
    {
        if trimmed.get_char(i) != scheme.get_char(i) {
            named = false;
        }
        i += 1;
    }
    proof {
        if named {
            assert(trimmed@.take(5) =~= s3_scheme());
        } else if n >= 5 {
            assert(i < 5 || exists|j: int| 0 <= j < 5 && trimmed@[j] != scheme@[j]);
            if trimmed@.take(5) == s3_scheme() {
                assert forall|j: int| 0 <= j < i implies trimmed@[j] == scheme@[j] by {
                    assert(trimmed@.take(5)[j] == trimmed@[j]);
                }
            }
        }
    }
    if !named {
        return match default_bucket {
            Some(b) => Ok((b, String::from_str(trimmed))),
            None => Err(LocationError::NoDefaultBucket),
        };
    }
    let rest = trimmed.substring_char(5, n);
    let m = n - 5;
    let mut k: usize = 0;
    while k < m && rest.get_char(k) != '/'
        invariant
            m == rest@.len(),
            k <= m,
            forall|j: int| 0 <= j < k ==> rest@[j] != '/',
        decreases m - k,
    {
        k += 1;
    }
    if k == m {
        assert(!rest@.contains('/'));
        return Err(LocationError::MissingKey);
    }
    proof {
        assert(is_first_slash(rest@, k as int));
        let c = choose|c: int| is_first_slash(rest@, c);
        lemma_first_slash_unique(rest@, k as int, c);
    }
    let bucket = rest.substring_char(0, k);
    let key = rest.substring_char(k + 1, m);
    proof {
        assert(rest@ =~= trimmed@.skip(5));
        assert(bucket@ =~= rest@.take(k as int));
        assert(key@ =~= rest@.skip(k + 1));
    }
    if k == 0 || k + 1 == m {
        return Err(LocationError::MissingBucketOrKey);
    }
    Ok((String::from_str(bucket), String::from_str(key)))
}

/// Resolves a storage location given by a user: the text is trimmed of
/// surrounding white space, then read as by `parse_trimmed_location`.
pub fn parse_s3_location(location: &str, default_bucket: Option<String>) -> (r: Result<
    (String, String),
    LocationError,
>)
    ensures
        pair_view(r) == location_of(trim_of(location@), opt_view(default_bucket)),
{
    parse_trimmed_location(trim(location), default_bucket)
}

/// `s` without the slashes at its end.
pub fn trim_trailing_slashes(s: &str) -> (r: String)
    ensures
        r@ == strip_trailing_slashes(s@),
{
    let mut end = s.unicode_len();
    assert(s@.take(end as int) =~= s@);
    while end > 0 && s.get_char(end - 1) == '/'
        invariant
            end <= s@.len(),
            strip_trailing_slashes(s@) == strip_trailing_slashes(s@.take(end as int)),
        decreases end,
    {
        proof {
            assert(s@.take(end as int).drop_last() =~= s@.take(end - 1));
        }
        end -= 1;
    }
    proof {
        assert(s@.take(end as int) =~= s@.subrange(0, end as int));
    }
    String::from_str(s.substring_char(0, end))
}

/// The (bucket, prefix) of an output location from its resolved
/// (bucket, key): the key without trailing slashes, which must not be empty.
pub fn prefix_from_location(bucket: String, key: String) -> (r: Result<
    (String, String),
    LocationError,
>)
    ensures
        pair_view(r) == prefix_of(Ok((bucket@, key@))),
{
    let prefix = trim_trailing_slashes(key.as_str());
    if prefix.unicode_len() == 0 {
        return Err(LocationError::EmptyOutputPath);
    }
    Ok((bucket, prefix))
}

/// Resolves the location under which a job's outputs are stored: a bucket
/// and a non-empty key prefix without trailing slashes.
pub fn normalize_output_prefix(output_path: &str, default_bucket: Option<String>) -> (r: Result<
    (String, String),
    LocationError,
>)
    ensures
        pair_view(r) == prefix_of(location_of(trim_of(output_path@), opt_view(default_bucket))),
{
    match parse_s3_location(output_path, default_bucket) {
        Ok((bucket, key)) => prefix_from_location(bucket, key),
        Err(e) => Err(e),
    }
}

/// The storage key of an output named `name` under `prefix`.
pub fn object_key(prefix: &str, name: &str) -> (r: String)
    ensures
        r@ == prefix@ + seq!['/'] + name@,
{
    let mut key = String::from_str(prefix);
    key.append("/");
    proof {
        reveal_strlit("/");
    }
    key.append(name);
    key
}

} // verus!
