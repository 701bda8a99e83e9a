//! Header detection for v5 circuit files.

use vstd::prelude::*;

verus! {

/// The two layouts of a v5 circuit file.
#[derive(Debug, Clone, Copy, PartialEq, Eq, Structural)]
pub enum CircuitFormatV5 {
    V5a,
    V5c,
}

/// Why a header prefix is not one of the supported v5 layouts.
#[derive(Debug, Clone, Copy, PartialEq, Eq, Structural)]
pub enum FormatError {
    /// Fewer than the six header bytes were available; holds how many there were.
    TruncatedHeader(usize),
    /// The first four bytes are not the magic `Zk2u`.
    BadMagic,
    /// The version byte is not 5; holds the byte found.
    UnsupportedVersion(u8),
    /// The format-type byte is neither 0x00 (v5a) nor 0x02 (v5c); holds the byte found.
    UnsupportedFormatType(u8),
}

/// Number of header bytes inspected by [`detect_v5_format`].
pub const HEADER_PREFIX_LEN: usize = 6;

/// The magic that opens every v5 circuit file: the ASCII bytes `Zk2u`.
pub open spec fn is_v5_magic(h: Seq<u8>) -> bool {
    &&& h[0] == 0x5a
    &&& h[1] == 0x6b
    &&& h[2] == 0x32
    &&& h[3] == 0x75
}

/// What the first bytes of a circuit file say about its layout.
pub open spec fn spec_detect_v5_format(h: Seq<u8>) -> Result<CircuitFormatV5, FormatError> {
    if h.len() < 6 {
        Err(FormatError::TruncatedHeader(h.len() as usize))
    } else if !is_v5_magic(h) {
        Err(FormatError::BadMagic)
    } else if h[4] != 5 {
        Err(FormatError::UnsupportedVersion(h[4]))
    } else if h[5] == 0 {
        Ok(CircuitFormatV5::V5a)
    } else if h[5] == 2 {
        Ok(CircuitFormatV5::V5c)
    } else {
        Err(FormatError::UnsupportedFormatType(h[5]))
    }
}

/// Only the first six bytes of a header decide its format: anything after
/// them changes nothing.
pub proof fn lemma_detect_reads_only_prefix(h: Seq<u8>, rest: Seq<u8>)
    requires
        h.len() >= 6,
    ensures
        spec_detect_v5_format(h + rest) == spec_detect_v5_format(h),
        spec_detect_v5_format(h) == spec_detect_v5_format(h.subrange(0, 6)),
{
    let hr = h + rest;
    assert(hr[0] == h[0] && hr[1] == h[1] && hr[2] == h[2] && hr[3] == h[3]);
    assert(hr[4] == h[4] && hr[5] == h[5]);
}

/// Classifies a circuit file by the first bytes read from it. Only the first
/// six bytes are looked at; anything after them is ignored.
pub fn detect_v5_format(header: &[u8]) -> (r: Result<CircuitFormatV5, FormatError>)
    ensures
        r == spec_detect_v5_format(header@),
{
    if header.len() < HEADER_PREFIX_LEN {
        return Err(FormatError::TruncatedHeader(header.len()));
    }
    if !(header[0] == 0x5a && header[1] == 0x6b && header[2] == 0x32 && header[3] == 0x75) {
        return Err(FormatError::BadMagic);
    }
    if header[4] != 0x05 {
        return Err(FormatError::UnsupportedVersion(header[4]));
    }
    match header[5] {
        0x00 => Ok(CircuitFormatV5::V5a),
        0x02 => Ok(CircuitFormatV5::V5c),
        other => Err(FormatError::UnsupportedFormatType(other)),
    }
}


/// No platform reads a prefix in `p` and `/` is its only separator: `p` holds
/// no backslash and no colon (no drive, no Windows separator) and does not
/// open with two slashes (no UNC or device prefix).
pub open spec fn is_slash_path(p: Seq<char>) -> bool {
    &&& forall|i: int| 0 <= i < p.len() ==> #[trigger] p[i] != '\\' && p[i] != ':'
    &&& !(p.len() >= 2 && p[0] == '/' && p[1] == '/')
}

/// From `e` on, `p` holds only what the reading of a path skips at its end:
/// separators, and `.` components (a `.` standing alone between a `/` and the
/// next `/` or the end).
pub open spec fn is_trailing_skip(p: Seq<char>, e: int) -> bool {
    forall|j: int|
        e <= j < p.len() ==> #[trigger] p[j] == '/' || (p[j] == '.' && j > 0 && p[j - 1] == '/' && (j
            + 1 == p.len() || p[j + 1] == '/'))
}

/// The file name of `p` is `p[s .. e]`: the last component, not counting
/// trailing separators and `.` components, when it is neither `.` nor `..`.
pub open spec fn is_file_name_span(p: Seq<char>, s: int, e: int) -> bool {
    &&& 0 <= s < e <= p.len()
    &&& (s == 0 || p[s - 1] == '/')
    &&& forall|j: int| s <= j < e ==> #[trigger] p[j] != '/'
    &&& is_trailing_skip(p, e)
    &&& p.subrange(s, e) != seq!['.']
    &&& p.subrange(s, e) != seq!['.', '.']
}

/// No `.` lies strictly between positions `a` and `e` of `p`.
pub open spec fn no_dot_between(p: Seq<char>, a: int, e: int) -> bool {
    forall|j: int| a < j < e ==> #[trigger] p[j] != '.'
}

/// Calls std's `PathBuf::set_extension` on `path` and returns the new path.
/// Stated here from the documentation of `set_extension`, `file_name`,
/// `file_stem` and `extension`, for a path in which `/` is the only separator
/// and no prefix is read (see [`is_slash_path`]): a path with no file name (see
/// [`is_file_name_span`]) comes back unchanged; otherwise, for a non-empty
/// extension, the path is cut right after the stem of its file name and `.`
/// and the extension follow. The stem is the file name up to its last `.`, or
/// the whole name when it has no `.` after its first character; trailing
/// separators and `.` components after the file name are dropped with the
/// cut. Paths with backslashes, colons or a leading `//` are read as prefixes
/// or separators on Windows and as plain characters elsewhere; what happens to
/// them is left unsaid.
#[verifier::external_body]
fn path_set_extension(path: &str, extension: &str) -> (out: String)
    requires
        forall|i: int| 0 <= i < extension@.len() ==> extension@[i] != '/' && extension@[i] != '\\',
    ensures
        is_slash_path(path@) && (forall|s: int, e: int| !#[trigger] is_file_name_span(path@, s, e))
            ==> out@ == path@,
        forall|s: int, e: int|
            #![trigger is_file_name_span(path@, s, e)]
            extension@.len() > 0 && is_slash_path(path@) && is_file_name_span(path@, s, e)
                && no_dot_between(path@, s, e) ==> out@ == path@.subrange(0, e) + seq!['.']
                + extension@,
        forall|s: int, e: int, k: int|
            #![trigger is_file_name_span(path@, s, e), path@[k]]
            extension@.len() > 0 && is_slash_path(path@) && is_file_name_span(path@, s, e) && s < k
                < e && path@[k] == '.' && no_dot_between(path@, k, e) ==> out@ == path@.subrange(0, k)
                + seq!['.'] + extension@,
{
    let mut buf = std::path::PathBuf::from(path);
    buf.set_extension(extension);
    buf.to_string_lossy().into_owned()
}

/// The last `.` strictly between `s` and `e`, when there is one.
proof fn lemma_last_dot(p: Seq<char>, s: int, e: int) -> (k: int)
    requires
        0 <= s,
        e <= p.len(),
        exists|j: int| s < j < e && 0 <= j < p.len() && p[j] == '.',
    ensures
        s < k < e,
        0 <= k < p.len(),
        p[k] == '.',
        no_dot_between(p, k, e),
    decreases e - s,
{
    let j = choose|j: int| s < j < e && 0 <= j < p.len() && p[j] == '.';
    if j == e - 1 {
        j
    } else if exists|i: int| j < i < e && 0 <= i < p.len() && p[i] == '.' {
        lemma_last_dot(p, j, e)
    } else {
        j
    }
}

/// The path at which the v5c conversion of `input` is kept, next to it:
/// `input` with the extension of its file name replaced by `v5c.ckt` (for a
/// file name without extension, `.v5c.ckt` appended), e.g. `dir/circuit.ckt`
/// becomes `dir/circuit.v5c.ckt`. A path that names no file comes back as it
/// is; one that names a file never comes back as it is, so the conversion is
/// never written over its own input.
pub fn default_v5c_path(input: &str) -> (out: String)
    ensures
        is_slash_path(input@) && (forall|s: int, e: int| !#[trigger] is_file_name_span(input@, s, e))
            ==> out@ == input@,
        forall|s: int, e: int|
            #![trigger is_file_name_span(input@, s, e)]
            is_slash_path(input@) && is_file_name_span(input@, s, e) && no_dot_between(input@, s, e)
                ==> out@ == input@.subrange(0, e) + seq!['.'] + "v5c.ckt"@,
        forall|s: int, e: int, k: int|
            #![trigger is_file_name_span(input@, s, e), input@[k]]
            is_slash_path(input@) && is_file_name_span(input@, s, e) && s < k < e && input@[k] == '.'
                && no_dot_between(input@, k, e) ==> out@ == input@.subrange(0, k) + seq!['.']
                + "v5c.ckt"@,
        forall|s: int, e: int|
            #![trigger is_file_name_span(input@, s, e)]
            is_slash_path(input@) && is_file_name_span(input@, s, e) ==> out@ != input@,
{
    proof {
        reveal_strlit("v5c.ckt");
    }
    let out = path_set_extension(input, "v5c.ckt");
    proof {
        let p = input@;
        let ext = seq!['.'] + "v5c.ckt"@;
        assert(ext.len() == 8 && ext[1] == 'v' && ext[2] == '5' && ext[3] == 'c' && ext[4] == '.');
        assert forall|s: int, e: int|
            #![trigger is_file_name_span(p, s, e)]
            is_slash_path(p) && is_file_name_span(p, s, e) implies out@ != p by {
            if no_dot_between(p, s, e) {
                assert(out@ =~= p.subrange(0, e) + ext);
                if out@ == p {
                    assert(p[e + 1] == out@[e + 1]);
                    assert(p[e + 1] == 'v');
                }
            } else {
                let k = lemma_last_dot(p, s, e);
                assert(out@ =~= p.subrange(0, k) + ext);
                if out@ == p {
                    assert(p[k + 1] == out@[k + 1] && p[k + 2] == out@[k + 2] && p[k + 3]
                        == out@[k + 3] && p[k + 4] == out@[k + 4]);
                    assert(p[k + 4] == '.');
                    if e > k + 4 {
                        assert(p[k + 4] != '.');
                    } else {
                        assert(p[e] == '/');
                    }
                }
            }
        }
    }
    out
}

/// What obtaining a v5c version of a circuit comes down to.
#[derive(Debug, Clone, Copy, PartialEq, Eq, Structural)]
pub enum V5cAction {
    /// The input already is a v5c circuit: use it as it is.
    UseInput,
    /// A v5c circuit already stands at the default output path: use it.
    UseExistingOutput,
    /// Convert the v5a input into a v5c circuit at the default output path.
    ConvertToOutput,
}

/// What to do to have a v5c circuit at hand: use a v5c input as it is; for a
/// v5a input, use a v5c circuit already at the default output path, and
/// convert otherwise.
pub open spec fn spec_ensure_v5c_action(
    input_format: CircuitFormatV5,
    existing_output_format: Option<CircuitFormatV5>,
) -> V5cAction {
    match input_format {
        CircuitFormatV5::V5c => V5cAction::UseInput,
        CircuitFormatV5::V5a => if existing_output_format == Some(CircuitFormatV5::V5c) {
            V5cAction::UseExistingOutput
        } else {
            V5cAction::ConvertToOutput
        },
    }
}

/// The decision behind making sure a v5c circuit is at hand (see
/// [`spec_ensure_v5c_action`]). `input_format` is the detected format of the
/// input file; `existing_output_format` is the detected format of the file at
/// [`default_v5c_path`] of the input, or `None` when no such file exists or its
/// header could not be read as a v5 header.
pub fn ensure_v5c_action(
    input_format: CircuitFormatV5,
    existing_output_format: Option<CircuitFormatV5>,
) -> (action: V5cAction)
    ensures
        action == spec_ensure_v5c_action(input_format, existing_output_format),
{
    match input_format {
        CircuitFormatV5::V5c => V5cAction::UseInput,
        CircuitFormatV5::V5a => match existing_output_format {
            Some(CircuitFormatV5::V5c) => V5cAction::UseExistingOutput,
            _ => V5cAction::ConvertToOutput,
        },
    }
}

/// Making sure of a v5c circuit settles: once the circuit at hand is v5c,
/// making sure again uses it as it is, whatever stands at its default output
/// path, and converts nothing.
pub proof fn lemma_ensure_v5c_settles(existing_output_format: Option<CircuitFormatV5>)
    ensures
        spec_ensure_v5c_action(CircuitFormatV5::V5c, existing_output_format) == V5cAction::UseInput,
{
}

} // verus!
