//! Safe file handling and path sanitization for remote environments.
use vstd::prelude::*;
use vstd::string::StringExecFns;
use vstd::utf8::{
    char_is_scalar, char_u32_cast, encode_scalar, encode_utf8, has_width_1_encoding,
    has_width_2_encoding, has_width_3_encoding,
};

use crate::agent_runtime::remote::RemoteEnvironmentError;
use crate::text::{
    chars_of, decimal, is_ascii_alphabetic_spec, is_whitespace, is_whitespace_spec, owned,
    push_char, push_decimal,
};

verus! {

/// `s` without its leading whitespace.
pub open spec fn trim_start(s: Seq<char>) -> Seq<char>
    decreases s.len(),
{
    if s.len() > 0 && is_whitespace_spec(s[0]) {
        trim_start(s.drop_first())
    } else {
        s
    }
}

/// `s` without its trailing whitespace.
pub open spec fn trim_end(s: Seq<char>) -> Seq<char>
    decreases s.len(),
{
    if s.len() > 0 && is_whitespace_spec(s.last()) {
        trim_end(s.drop_last())
    } else {
        s
    }
}

/// `s` without leading and trailing whitespace, as `str::trim` gives it.
pub open spec fn trim(s: Seq<char>) -> Seq<char> {
    trim_end(trim_start(s))
}

/// Starts with a drive letter and a colon, such as `C:`. This is the same
/// test as `bytes_have_drive_prefix` on the string's UTF-8 bytes
/// (`lemma_drive_prefix_on_bytes`).
pub open spec fn has_drive_prefix(t: Seq<char>) -> bool {
    t.len() >= 2 && is_ascii_alphabetic_spec(t[0]) && t[1] == ':'
}

/// Starts at a root (`/`), a UNC or backslash root (`\`), or a home directory (`~`).
pub open spec fn has_root_prefix(t: Seq<char>) -> bool {
    t.len() > 0 && (t[0] == '/' || t[0] == '\\' || t[0] == '~')
}

/// Every backslash replaced by a forward slash.
pub open spec fn backslashes_to_slashes(t: Seq<char>) -> Seq<char> {
    t.map_values(|c: char| if c == '\\' { '/' } else { c })
}

/// The `/`-separated component of `n` that starts at `i` is `..`.
pub open spec fn parent_component_at(n: Seq<char>, i: int) -> bool {
    &&& 0 <= i
    &&& i + 2 <= n.len()
    &&& n[i] == '.'
    &&& n[i + 1] == '.'
    &&& (i == 0 || n[i - 1] == '/')
    &&& (i + 2 == n.len() || n[i + 2] == '/')
}

/// Some `/`-separated component of `n` is `..`.
pub open spec fn has_parent_component(n: Seq<char>) -> bool {
    exists|i: int| parent_component_at(n, i)
}

/// Why an empty path is refused.
pub open spec fn reason_empty() -> Seq<char> {
    "Path cannot be empty"@
}

/// Why a path with a drive prefix is refused.
pub open spec fn reason_drive() -> Seq<char> {
    "Absolute paths with drive prefix are not permitted"@
}

/// Why a path from a root or home directory is refused.
pub open spec fn reason_root() -> Seq<char> {
    "Absolute paths or home directory paths outside remote workspace root are not permitted"@
}

/// Why a path with a `..` component is refused.
pub open spec fn reason_traversal() -> Seq<char> {
    "Path contains directory traversal component ('..')"@
}

/// What validating `p` gives: the normalized path, or the reason of the
/// rejection. The checks run in this order: the trimmed path is empty; it
/// has a drive prefix; it starts at a root or home directory; after
/// backslashes become slashes, a component is `..`.
pub open spec fn relative_path_outcome(p: Seq<char>) -> Result<Seq<char>, Seq<char>> {
    let t = trim(p);
    if t.len() == 0 {
        Err(reason_empty())
    } else if has_drive_prefix(t) {
        Err(reason_drive())
    } else if has_root_prefix(t) {
        Err(reason_root())
    } else if has_parent_component(backslashes_to_slashes(t)) {
        Err(reason_traversal())
    } else {
        Ok(backslashes_to_slashes(t))
    }
}

/// The outcome of a size check: within the limit, or the text of the
/// rejected file and the reason.
pub open spec fn file_size_outcome(size_bytes: u64, max_bytes: u64) -> Result<(), (Seq<char>, Seq<char>)> {
    if size_bytes > max_bytes {
        Err(
            (
                decimal(size_bytes as nat) + " bytes"@,
                "File exceeds maximum allowed transfer size of "@ + decimal(max_bytes as nat)
                    + " bytes"@,
            ),
        )
    } else {
        Ok(())
    }
}

proof fn lemma_trim_start_first(s: Seq<char>)
    ensures
        trim_start(s).len() > 0 ==> !is_whitespace_spec(trim_start(s)[0]),
    decreases s.len(),
{
    if s.len() > 0 && is_whitespace_spec(s[0]) {
        lemma_trim_start_first(s.drop_first());
    }
}

proof fn lemma_trim_end_shape(s: Seq<char>)
    ensures
        trim_end(s) == s.take(trim_end(s).len() as int),
        trim_end(s).len() <= s.len(),
        trim_end(s).len() > 0 ==> !is_whitespace_spec(trim_end(s).last()),
    decreases s.len(),
{
    if s.len() > 0 && is_whitespace_spec(s.last()) {
        lemma_trim_end_shape(s.drop_last());
        assert(s.drop_last().take(trim_end(s).len() as int) =~= s.take(trim_end(s).len() as int));
    } else {
        assert(s.take(s.len() as int) =~= s);
    }
}

/// A non-empty trimmed string neither starts nor ends with whitespace.
proof fn lemma_trim_ends(p: Seq<char>)
    ensures
        trim(p).len() > 0 ==> !is_whitespace_spec(trim(p)[0]) && !is_whitespace_spec(
            trim(p).last(),
        ),
{
    lemma_trim_start_first(p);
    lemma_trim_end_shape(trim_start(p));
}

/// Law: a path that validation accepts comes back non-empty, without
/// surrounding whitespace, without backslashes, not starting at a drive, a
/// root or a home directory, and with no `..` component.
pub proof fn lemma_accepted_path_is_relative(p: Seq<char>)
    requires
        relative_path_outcome(p) is Ok,
    ensures
        ({
            let n = relative_path_outcome(p)->Ok_0;
            &&& n.len() > 0
            &&& !is_whitespace_spec(n[0])
            &&& !is_whitespace_spec(n.last())
            &&& forall|i: int| 0 <= i < n.len() ==> n[i] != '\\'
            &&& !has_drive_prefix(n)
            &&& !has_root_prefix(n)
            &&& !has_parent_component(n)
        }),
{
    let t = trim(p);
    let n = backslashes_to_slashes(t);
    lemma_trim_ends(p);
    assert(n[0] == t[0]);
    if t.len() >= 2 {
        assert(n[1] == ':' ==> t[1] == ':');
    }
}

/// Law: validation is idempotent; validating an accepted path again
/// accepts it unchanged.
pub proof fn lemma_validation_is_idempotent(p: Seq<char>)
    requires
        relative_path_outcome(p) is Ok,
    ensures
        relative_path_outcome(relative_path_outcome(p)->Ok_0) == relative_path_outcome(p),
{
    let n = relative_path_outcome(p)->Ok_0;
    lemma_accepted_path_is_relative(p);
    assert(trim_start(n) == n);
    assert(trim_end(n) == n);
    assert(trim(n) == n);
    assert(backslashes_to_slashes(n) =~= n);
}

proof fn lemma_trim_start_shape(s: Seq<char>) -> (lo: int)
    ensures
        0 <= lo <= s.len(),
        trim_start(s) == s.subrange(lo, s.len() as int),
        forall|i: int| 0 <= i < lo ==> is_whitespace_spec(#[trigger] s[i]),
    decreases s.len(),
{
    if s.len() > 0 && is_whitespace_spec(s[0]) {
        let k = lemma_trim_start_shape(s.drop_first());
        assert(s.drop_first().subrange(k, s.len() - 1) =~= s.subrange(k + 1, s.len() as int));
        assert forall|i: int| 0 <= i < k + 1 implies is_whitespace_spec(#[trigger] s[i]) by {
            if i > 0 {
                assert(s[i] == s.drop_first()[i - 1]);
            }
        }
        k + 1
    } else {
        assert(s.subrange(0, s.len() as int) =~= s);
        0
    }
}

proof fn lemma_trim_end_tail(s: Seq<char>)
    ensures
        forall|i: int| trim_end(s).len() <= i < s.len() ==> is_whitespace_spec(#[trigger] s[i]),
    decreases s.len(),
{
    if s.len() > 0 && is_whitespace_spec(s.last()) {
        lemma_trim_end_tail(s.drop_last());
        lemma_trim_end_shape(s.drop_last());
        assert forall|i: int| trim_end(s).len() <= i < s.len() implies is_whitespace_spec(
            #[trigger] s[i],
        ) by {
            if i < s.len() - 1 {
                assert(s[i] == s.drop_last()[i]);
            }
        }
    }
}

/// Law: trimming keeps a contiguous part of the text and drops only
/// whitespace around it; what it keeps, where anything, neither starts nor
/// ends with whitespace.
pub proof fn lemma_trim_drops_surrounding_whitespace(p: Seq<char>)
    ensures
        exists|lo: int, hi: int|
            {
                &&& 0 <= lo <= hi <= p.len()
                &&& trim(p) == p.subrange(lo, hi)
                &&& forall|i: int| 0 <= i < lo ==> is_whitespace_spec(#[trigger] p[i])
                &&& forall|i: int| hi <= i < p.len() ==> is_whitespace_spec(#[trigger] p[i])
                &&& lo < hi ==> !is_whitespace_spec(p[lo]) && !is_whitespace_spec(p[hi - 1])
            },
{
    let lo = lemma_trim_start_shape(p);
    let u = trim_start(p);
    lemma_trim_end_shape(u);
    lemma_trim_end_tail(u);
    lemma_trim_ends(p);
    let hi = lo + trim_end(u).len();
    assert(trim(p) =~= p.subrange(lo, hi));
    assert forall|i: int| hi <= i < p.len() implies is_whitespace_spec(#[trigger] p[i]) by {
        assert(p[i] == u[i - lo]);
    }
    if lo < hi {
        assert(p[lo] == trim(p)[0]);
        assert(p[hi - 1] == trim(p).last());
    }
}

/// Law: a path is accepted exactly when, once trimmed, it is non-empty,
/// does not start with a drive letter and a colon, nor with `/`, `\` or
/// `~`, and has no component `..` between separators (`/` or `\`); only
/// such a component counts as traversal. The accepted path is the trimmed
/// one with each backslash turned into a slash.
pub proof fn lemma_relative_path_accepted_iff(p: Seq<char>)
    ensures
        ({
            let t = trim(p);
            let acceptable = t.len() > 0 && !(t.len() >= 2 && ((65 <= (t[0] as u32) <= 90) || (97
                <= (t[0] as u32) <= 122)) && t[1] == ':') && t[0] != '/' && t[0] != '\\' && t[0]
                != '~' && !(exists|i: int|
                0 <= i && i + 2 <= t.len() && #[trigger] t[i] == '.' && t[i + 1] == '.' && (i == 0
                    || t[i - 1] == '/' || t[i - 1] == '\\') && (i + 2 == t.len() || t[i + 2] == '/'
                    || t[i + 2] == '\\'));
            &&& (relative_path_outcome(p) is Ok <==> acceptable)
            &&& acceptable ==> {
                let n = relative_path_outcome(p)->Ok_0;
                &&& n.len() == t.len()
                &&& forall|i: int|
                    0 <= i < t.len() ==> #[trigger] n[i] == (if t[i] == '\\' {
                        '/'
                    } else {
                        t[i]
                    })
            }
        }),
{
    let t = trim(p);
    let n = backslashes_to_slashes(t);
    assert forall|i: int| 0 <= i < t.len() implies (#[trigger] n[i] == '.') == (t[i] == '.') && (
    n[i] == '/') == (t[i] == '/' || t[i] == '\\') by {}
    if has_parent_component(n) {
        let i = choose|i: int| parent_component_at(n, i);
        assert(t[i] == '.' && t[i + 1] == '.');
        if i > 0 {
            assert(n[i - 1] == '/');
        }
        if i + 2 < t.len() {
            assert(n[i + 2] == '/');
        }
    }
    if exists|i: int|
        0 <= i && i + 2 <= t.len() && #[trigger] t[i] == '.' && t[i + 1] == '.' && (i == 0 || t[i
            - 1] == '/' || t[i - 1] == '\\') && (i + 2 == t.len() || t[i + 2] == '/' || t[i + 2]
            == '\\') {
        let i = choose|i: int|
            0 <= i && i + 2 <= t.len() && #[trigger] t[i] == '.' && t[i + 1] == '.' && (i == 0
                || t[i - 1] == '/' || t[i - 1] == '\\') && (i + 2 == t.len() || t[i + 2] == '/'
                || t[i + 2] == '\\');
        assert(n[i] == '.' && n[i + 1] == '.');
        if i > 0 {
            assert(n[i - 1] == '/');
        }
        if i + 2 < t.len() {
            assert(n[i + 2] == '/');
        }
        assert(parent_component_at(n, i));
    }
}

/// Law: a file passes the size check exactly when its size, as a whole
/// number, is at most the limit; a refusal names the size and the limit in
/// bytes.
pub proof fn lemma_size_check_compares_sizes(size_bytes: u64, max_bytes: u64)
    ensures
        file_size_outcome(size_bytes, max_bytes) is Ok <==> size_bytes as int <= max_bytes as int,
        size_bytes as int > max_bytes as int ==> file_size_outcome(size_bytes, max_bytes)
            == Err::<(), (Seq<char>, Seq<char>)>(
            (
                decimal(size_bytes as nat) + " bytes"@,
                "File exceeds maximum allowed transfer size of "@ + decimal(max_bytes as nat)
                    + " bytes"@,
            ),
        ),
{
}

/// Law: the size check is monotone: a file no larger than one that passes
/// passes too, and under a limit no smaller.
pub proof fn lemma_size_check_monotone(size_a: u64, size_b: u64, max_a: u64, max_b: u64)
    requires
        file_size_outcome(size_b, max_a) is Ok,
        size_a <= size_b,
        max_a <= max_b,
    ensures
        file_size_outcome(size_a, max_b) is Ok,
{
}

/// The drive-prefix test on UTF-8 bytes: at least two bytes, the first an
/// ASCII letter, the second `:`.
pub open spec fn bytes_have_drive_prefix(b: Seq<u8>) -> bool {
    b.len() >= 2 && ((65 <= b[0] <= 90) || (97 <= b[0] <= 122)) && b[1] == 58
}

proof fn lemma_leading_byte(c: char, rest: Seq<u8>)
    ensures
        ({
            let b = encode_scalar(c as u32) + rest;
            &&& b.len() >= 1
            &&& (c as u32) < 0x80 ==> b[0] == c as u32 && b.drop_first() == rest
            &&& (c as u32) >= 0x80 ==> b[0] >= 0xC0
        }),
{
    char_is_scalar(c);
    let v = c as u32;
    let b = encode_scalar(v) + rest;
    if has_width_1_encoding(v) {
        assert((v & 0x7F) as u8 == v) by (bit_vector)
            requires
                v <= 0x7F,
        ;
        assert(b.drop_first() =~= rest);
    } else if has_width_2_encoding(v) {
        assert(0xC0 | ((v >> 6) & 0x1F) as u8 >= 0xC0) by (bit_vector);
    } else if has_width_3_encoding(v) {
        assert(0xE0 | ((v >> 12) & 0x0F) as u8 >= 0xC0) by (bit_vector);
    } else {
        assert(0xF0 | ((v >> 18) & 0x7) as u8 >= 0xC0) by (bit_vector);
    }
}

/// The drive-prefix test on characters is the same test on the string's
/// UTF-8 bytes.
pub proof fn lemma_drive_prefix_on_bytes(t: Seq<char>)
    ensures
        has_drive_prefix(t) == bytes_have_drive_prefix(encode_utf8(t)),
{
    if t.len() > 0 {
        let b = encode_utf8(t);
        lemma_leading_byte(t[0], encode_utf8(t.drop_first()));
        if (t[0] as u32) < 0x80 && t.len() >= 2 {
            let t1 = t.drop_first();
            assert(t1[0] == t[1]);
            lemma_leading_byte(t1[0], encode_utf8(t1.drop_first()));
            assert(b.drop_first() == encode_utf8(t1));
            assert(b[1] == encode_utf8(t1)[0]);
            assert((':' as u32) == 58);
            if (t[1] as u32) == 58 {
                char_u32_cast(t[1], 58);
                char_u32_cast(':', 58);
            }
        } else if (t[0] as u32) < 0x80 {
            assert(t.drop_first().len() == 0);
            assert(b.len() == 1);
        }
    }
}

/// Safe file handling and path sanitization for remote environments.
pub struct RemoteFileSafety;

proof fn lemma_trim_start_skips(s: Seq<char>, i: int)
    requires
        0 <= i < s.len(),
        is_whitespace_spec(s[i]),
    ensures
        trim_start(s.subrange(i, s.len() as int)) == trim_start(s.subrange(i + 1, s.len() as int)),
{
    assert(s.subrange(i, s.len() as int).drop_first() =~= s.subrange(i + 1, s.len() as int));
}

proof fn lemma_trim_end_skips(s: Seq<char>, lo: int, hi: int)
    requires
        0 <= lo < hi <= s.len(),
        is_whitespace_spec(s[hi - 1]),
    ensures
        trim_end(s.subrange(lo, hi)) == trim_end(s.subrange(lo, hi - 1)),
{
    assert(s.subrange(lo, hi).drop_last() =~= s.subrange(lo, hi - 1));
}

fn rejected(path: &str, reason: &str) -> (r: RemoteEnvironmentError)
    ensures
        r matches RemoteEnvironmentError::SafeFileTransferRejected { file, reason: why } && file@
            == path@ && why@ == reason@,
{
    RemoteEnvironmentError::SafeFileTransferRejected { file: owned(path), reason: owned(reason) }
}

impl RemoteFileSafety {
    /// Validate that a remote file path is safe and does not attempt directory traversal (`..`).
    ///
    /// Checks are host-independent so absolute drive prefixes (e.g. `C:\`), UNC paths,
    /// leading root slashes (`/`), and home directory paths (`~`) are rejected uniformly
    /// across Windows, Linux, and macOS. An accepted path is returned trimmed and with
    /// backslashes turned into forward slashes.
    #[verifier::spinoff_prover]
    #[verifier::rlimit(40)]
    pub fn validate_relative_path(path: &str) -> (r: Result<String, RemoteEnvironmentError>)
        ensures
            (match relative_path_outcome(path@) {
                Ok(n) => r matches Ok(s) && s@ == n,
                Err(why) => r matches Err(
                    RemoteEnvironmentError::SafeFileTransferRejected { file, reason },
                ) && file@ == path@ && reason@ == why,
            }),
    {
        let cs = chars_of(path);
        let len = cs.len();
        let ghost s = cs@;
        let mut lo: usize = 0;
        assert(s.subrange(0, len as int) =~= s);
        while lo < len && is_whitespace(cs[lo])
            invariant
                len == cs@.len(),
                s == cs@,
                lo <= len,
                trim_start(s) == trim_start(s.subrange(lo as int, len as int)),
            decreases len - lo,
        {
            proof {
                lemma_trim_start_skips(s, lo as int);
            }
            lo = lo + 1;
        }
        assert(trim_start(s) =~= s.subrange(lo as int, len as int));
        let mut hi: usize = len;
        while hi > lo && is_whitespace(cs[hi - 1])
            invariant
                len == cs@.len(),
                s == cs@,
                lo <= hi <= len,
                trim(s) == trim_end(s.subrange(lo as int, hi as int)),
            decreases hi,
        {
            proof {
                lemma_trim_end_skips(s, lo as int, hi as int);
            }
            hi = hi - 1;
        }
        let ghost t = s.subrange(lo as int, hi as int);
        assert(trim(s) =~= t);
        if hi == lo {
            return Err(rejected(path, "Path cannot be empty"));
        }
        let c0 = cs[lo];
        let u0: u32 = c0 as u32;
        assert(t[0] == c0);
        if hi - lo >= 2 && ((65 <= u0 && u0 <= 90) || (97 <= u0 && u0 <= 122)) && cs[lo + 1]
            == ':' {
            return Err(rejected(path, "Absolute paths with drive prefix are not permitted"));
        }
        assert(!has_drive_prefix(t));
        if c0 == '/' || c0 == '\\' || c0 == '~' {
            return Err(
                rejected(
                    path,
                    "Absolute paths or home directory paths outside remote workspace root are not permitted",
                ),
            );
        }
        // Normalize all backslashes to forward slashes.
        let mut nv: Vec<char> = Vec::new();
        let mut i: usize = lo;
        while i < hi
            invariant
                len == cs@.len(),
                s == cs@,
                lo <= i <= hi <= len,
                t == s.subrange(lo as int, hi as int),
                nv@ == backslashes_to_slashes(t).take(i - lo),
            decreases hi - i,
        {
            let c = cs[i];
            if c == '\\' {
                nv.push('/');
            } else {
                nv.push(c);
            }
            assert(backslashes_to_slashes(t).take(i + 1 - lo) =~= backslashes_to_slashes(t).take(
                i - lo,
            ).push(nv@.last()));
            i = i + 1;
        }
        let ghost n = backslashes_to_slashes(t);
        assert(nv@ =~= n);
        // Inspect each path component for directory traversal.
        let m = nv.len();
        let mut j: usize = 0;
        while j < m
            invariant
                m == nv@.len(),
                nv@ == n,
                n == backslashes_to_slashes(t),
                t == trim(path@),
                t.len() > 0,
                !has_drive_prefix(t),
                !has_root_prefix(t),
                j <= m,
                forall|k: int| 0 <= k < j ==> !parent_component_at(n, k),
            decreases m - j,
        {
            if j + 1 < m && nv[j] == '.' && nv[j + 1] == '.' && (j == 0 || nv[j - 1] == '/') && (
            j + 2 == m || nv[j + 2] == '/') {
                assert(parent_component_at(n, j as int));
                return Err(
                    rejected(path, "Path contains directory traversal component ('..')"),
                );
            }
            j = j + 1;
        }
        assert(!has_parent_component(n));
        let mut out = String::new();
        let mut k: usize = 0;
        while k < m
            invariant
                m == nv@.len(),
                k <= m,
                out@ == nv@.take(k as int),
            decreases m - k,
        {
            push_char(&mut out, nv[k]);
            assert(nv@.take(k + 1) =~= nv@.take(k as int).push(nv@[k as int]));
            k = k + 1;
        }
        assert(nv@.take(m as int) =~= nv@);
        Ok(out)
    }

    /// Validate file size limit for remote file transfer: a size above the
    /// limit is rejected, naming the size and the limit in bytes.
    pub fn validate_file_size(size_bytes: u64, max_bytes: u64) -> (r: Result<
        (),
        RemoteEnvironmentError,
    >)
        ensures
            (match file_size_outcome(size_bytes, max_bytes) {
                Ok(_) => r is Ok,
                Err((f, why)) => r matches Err(
                    RemoteEnvironmentError::SafeFileTransferRejected { file, reason },
                ) && file@ == f && reason@ == why,
            }),
            r is Ok <==> size_bytes <= max_bytes,
    {
        if size_bytes > max_bytes {
            let mut file = String::new();
            push_decimal(size_bytes, &mut file);
            file.append(" bytes");
            let mut reason = owned("File exceeds maximum allowed transfer size of ");
            push_decimal(max_bytes, &mut reason);
            reason.append(" bytes");
            assert(file@ =~= decimal(size_bytes as nat) + " bytes"@);
            return Err(RemoteEnvironmentError::SafeFileTransferRejected { file, reason });
        }
        Ok(())
    }
}

} // verus!
